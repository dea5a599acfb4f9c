//! The color themes that the settings offer.

use vstd::prelude::*;
use crate::text::same_text;

verus! {

/// The color themes, in the order the settings list them.
#[derive(Clone, Copy, PartialEq, Eq, Structural)]
pub enum ThemeChoice {
    Light,
    Dark,
    Dracula,
    Nord,
    SolarizedLight,
    SolarizedDark,
    GruvboxLight,
    GruvboxDark,
    CatppuccinLatte,
    CatppuccinFrappe,
    CatppuccinMacchiato,
    CatppuccinMocha,
    TokyoNight,
    TokyoNightStorm,
    TokyoNightLight,
    KanagawaWave,
    KanagawaDragon,
    KanagawaLotus,
    Moonfly,
    Nightfly,
    Oxocarbon,
    Ferra,
}

/// The name a theme is stored and listed under.
pub open spec fn theme_name_of(t: ThemeChoice) -> Seq<char> {
    match t {
        ThemeChoice::Light => "Light"@,
        ThemeChoice::Dark => "Dark"@,
        ThemeChoice::Dracula => "Dracula"@,
        ThemeChoice::Nord => "Nord"@,
        ThemeChoice::SolarizedLight => "SolarizedLight"@,
        ThemeChoice::SolarizedDark => "SolarizedDark"@,
        ThemeChoice::GruvboxLight => "GruvboxLight"@,
        ThemeChoice::GruvboxDark => "GruvboxDark"@,
        ThemeChoice::CatppuccinLatte => "CatppuccinLatte"@,
        ThemeChoice::CatppuccinFrappe => "CatppuccinFrappe"@,
        ThemeChoice::CatppuccinMacchiato => "CatppuccinMacchiato"@,
        ThemeChoice::CatppuccinMocha => "CatppuccinMocha"@,
        ThemeChoice::TokyoNight => "TokyoNight"@,
        ThemeChoice::TokyoNightStorm => "TokyoNightStorm"@,
        ThemeChoice::TokyoNightLight => "TokyoNightLight"@,
        ThemeChoice::KanagawaWave => "KanagawaWave"@,
        ThemeChoice::KanagawaDragon => "KanagawaDragon"@,
        ThemeChoice::KanagawaLotus => "KanagawaLotus"@,
        ThemeChoice::Moonfly => "Moonfly"@,
        ThemeChoice::Nightfly => "Nightfly"@,
        ThemeChoice::Oxocarbon => "Oxocarbon"@,
        ThemeChoice::Ferra => "Ferra"@,
    }
}

/// All themes, in the order the settings list them.
pub open spec fn theme_order() -> Seq<ThemeChoice> {
    seq![
        ThemeChoice::Light,
        ThemeChoice::Dark,
        ThemeChoice::Dracula,
        ThemeChoice::Nord,
        ThemeChoice::SolarizedLight,
        ThemeChoice::SolarizedDark,
        ThemeChoice::GruvboxLight,
        ThemeChoice::GruvboxDark,
        ThemeChoice::CatppuccinLatte,
        ThemeChoice::CatppuccinFrappe,
        ThemeChoice::CatppuccinMacchiato,
        ThemeChoice::CatppuccinMocha,
        ThemeChoice::TokyoNight,
        ThemeChoice::TokyoNightStorm,
        ThemeChoice::TokyoNightLight,
        ThemeChoice::KanagawaWave,
        ThemeChoice::KanagawaDragon,
        ThemeChoice::KanagawaLotus,
        ThemeChoice::Moonfly,
        ThemeChoice::Nightfly,
        ThemeChoice::Oxocarbon,
        ThemeChoice::Ferra,
    ]
}

/// The name of a theme.
pub fn theme_name(t: ThemeChoice) -> (res: String)
    ensures
        res@ == theme_name_of(t),
{
    match t {
        ThemeChoice::Light => "Light".to_string(),
        ThemeChoice::Dark => "Dark".to_string(),
        ThemeChoice::Dracula => "Dracula".to_string(),
        ThemeChoice::Nord => "Nord".to_string(),
        ThemeChoice::SolarizedLight => "SolarizedLight".to_string(),
        ThemeChoice::SolarizedDark => "SolarizedDark".to_string(),
        ThemeChoice::GruvboxLight => "GruvboxLight".to_string(),
        ThemeChoice::GruvboxDark => "GruvboxDark".to_string(),
        ThemeChoice::CatppuccinLatte => "CatppuccinLatte".to_string(),
        ThemeChoice::CatppuccinFrappe => "CatppuccinFrappe".to_string(),
        ThemeChoice::CatppuccinMacchiato => "CatppuccinMacchiato".to_string(),
        ThemeChoice::CatppuccinMocha => "CatppuccinMocha".to_string(),
        ThemeChoice::TokyoNight => "TokyoNight".to_string(),
        ThemeChoice::TokyoNightStorm => "TokyoNightStorm".to_string(),
        ThemeChoice::TokyoNightLight => "TokyoNightLight".to_string(),
        ThemeChoice::KanagawaWave => "KanagawaWave".to_string(),
        ThemeChoice::KanagawaDragon => "KanagawaDragon".to_string(),
        ThemeChoice::KanagawaLotus => "KanagawaLotus".to_string(),
        ThemeChoice::Moonfly => "Moonfly".to_string(),
        ThemeChoice::Nightfly => "Nightfly".to_string(),
        ThemeChoice::Oxocarbon => "Oxocarbon".to_string(),
        ThemeChoice::Ferra => "Ferra".to_string(),
    }
}

/// The theme stored under `name`; the dark theme for a name that is not a
/// theme's.
pub fn theme_from_name(name: &str) -> (res: ThemeChoice)
    ensures
        theme_name_of(res) == name@ || (res == ThemeChoice::Dark && forall|t: ThemeChoice|
            theme_name_of(t) != name@),
{
    if same_text(name, "Light") {
        return ThemeChoice::Light;
    }
    if same_text(name, "Dark") {
        return ThemeChoice::Dark;
    }
    if same_text(name, "Dracula") {
        return ThemeChoice::Dracula;
    }
    if same_text(name, "Nord") {
        return ThemeChoice::Nord;
    }
    if same_text(name, "SolarizedLight") {
        return ThemeChoice::SolarizedLight;
    }
    if same_text(name, "SolarizedDark") {
        return ThemeChoice::SolarizedDark;
    }
    if same_text(name, "GruvboxLight") {
        return ThemeChoice::GruvboxLight;
    }
    if same_text(name, "GruvboxDark") {
        return ThemeChoice::GruvboxDark;
    }
    if same_text(name, "CatppuccinLatte") {
        return ThemeChoice::CatppuccinLatte;
    }
    if same_text(name, "CatppuccinFrappe") {
        return ThemeChoice::CatppuccinFrappe;
    }
    if same_text(name, "CatppuccinMacchiato") {
        return ThemeChoice::CatppuccinMacchiato;
    }
    if same_text(name, "CatppuccinMocha") {
        return ThemeChoice::CatppuccinMocha;
    }
    if same_text(name, "TokyoNight") {
        return ThemeChoice::TokyoNight;
    }
    if same_text(name, "TokyoNightStorm") {
        return ThemeChoice::TokyoNightStorm;
    }
    if same_text(name, "TokyoNightLight") {
        return ThemeChoice::TokyoNightLight;
    }
    if same_text(name, "KanagawaWave") {
        return ThemeChoice::KanagawaWave;
    }
    if same_text(name, "KanagawaDragon") {
        return ThemeChoice::KanagawaDragon;
    }
    if same_text(name, "KanagawaLotus") {
        return ThemeChoice::KanagawaLotus;
    }
    if same_text(name, "Moonfly") {
        return ThemeChoice::Moonfly;
    }
    if same_text(name, "Nightfly") {
        return ThemeChoice::Nightfly;
    }
    if same_text(name, "Oxocarbon") {
        return ThemeChoice::Oxocarbon;
    }
    if same_text(name, "Ferra") {
        return ThemeChoice::Ferra;
    }
    ThemeChoice::Dark
}

/// No two themes share a name, so looking a theme up by its own name gives
/// the theme back.
pub proof fn lemma_theme_names_distinct(a: ThemeChoice, b: ThemeChoice)
    ensures
        theme_name_of(a) == theme_name_of(b) ==> a == b,
{
    reveal_strlit("Light");
    reveal_strlit("Dark");
    reveal_strlit("Dracula");
    reveal_strlit("Nord");
    reveal_strlit("SolarizedLight");
    reveal_strlit("SolarizedDark");
    reveal_strlit("GruvboxLight");
    reveal_strlit("GruvboxDark");
    reveal_strlit("CatppuccinLatte");
    reveal_strlit("CatppuccinFrappe");
    reveal_strlit("CatppuccinMacchiato");
    reveal_strlit("CatppuccinMocha");
    reveal_strlit("TokyoNight");
    reveal_strlit("TokyoNightStorm");
    reveal_strlit("TokyoNightLight");
    reveal_strlit("KanagawaWave");
    reveal_strlit("KanagawaDragon");
    reveal_strlit("KanagawaLotus");
    reveal_strlit("Moonfly");
    reveal_strlit("Nightfly");
    reveal_strlit("Oxocarbon");
    reveal_strlit("Ferra");
    if theme_name_of(a) == theme_name_of(b) && a != b {
        assert(theme_name_of(a).len() == theme_name_of(b).len());
        assert(theme_name_of(a)[0] == theme_name_of(b)[0]);
        assert(theme_name_of(a)[theme_name_of(a).len() - 1] == theme_name_of(b)[theme_name_of(
            b,
        ).len() - 1]);
        assert(theme_name_of(a)[5] == theme_name_of(b)[5]);
    }
}

/// All themes, in the order the settings list them.
pub fn all_themes() -> (res: Vec<ThemeChoice>)
    ensures
        res@ == theme_order(),
{
    let mut v: Vec<ThemeChoice> = Vec::new();
    v.push(ThemeChoice::Light);
    v.push(ThemeChoice::Dark);
    v.push(ThemeChoice::Dracula);
    v.push(ThemeChoice::Nord);
    v.push(ThemeChoice::SolarizedLight);
    v.push(ThemeChoice::SolarizedDark);
    v.push(ThemeChoice::GruvboxLight);
    v.push(ThemeChoice::GruvboxDark);
    v.push(ThemeChoice::CatppuccinLatte);
    v.push(ThemeChoice::CatppuccinFrappe);
    v.push(ThemeChoice::CatppuccinMacchiato);
    v.push(ThemeChoice::CatppuccinMocha);
    v.push(ThemeChoice::TokyoNight);
    v.push(ThemeChoice::TokyoNightStorm);
    v.push(ThemeChoice::TokyoNightLight);
    v.push(ThemeChoice::KanagawaWave);
    v.push(ThemeChoice::KanagawaDragon);
    v.push(ThemeChoice::KanagawaLotus);
    v.push(ThemeChoice::Moonfly);
    v.push(ThemeChoice::Nightfly);
    v.push(ThemeChoice::Oxocarbon);
    v.push(ThemeChoice::Ferra);
    assert(v@ =~= theme_order());
    v
}

} // verus!
