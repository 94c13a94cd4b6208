//! The terminal's colour themes.
use crate::text::{law_pieces_are_split_at_marks, pieces};
use vstd::prelude::*;

verus! {

#[derive(Clone, Copy, Debug, PartialEq, Eq, Structural)]
pub enum TerminalTheme {
    Default,
    Sequoia,
    SolarizedDark,
    SolarizedLight,
    Dracula,
    GithubDark,
    Monokai,
    Aura,
}

/// The theme at a place, counted round.
pub open spec fn theme_at(index: int) -> TerminalTheme {
    let place = index % 8;
    if place == 0 {
        TerminalTheme::Default
    } else if place == 1 {
        TerminalTheme::Sequoia
    } else if place == 2 {
        TerminalTheme::SolarizedDark
    } else if place == 3 {
        TerminalTheme::SolarizedLight
    } else if place == 4 {
        TerminalTheme::Dracula
    } else if place == 5 {
        TerminalTheme::GithubDark
    } else if place == 6 {
        TerminalTheme::Monokai
    } else {
        TerminalTheme::Aura
    }
}

/// The name of a theme.
pub open spec fn theme_name(theme: TerminalTheme) -> Seq<char> {
    match theme {
        TerminalTheme::Default => "Default"@,
        TerminalTheme::Sequoia => "Sequoia"@,
        TerminalTheme::SolarizedDark => "Solarized"@,
        TerminalTheme::SolarizedLight => "Solarized Light"@,
        TerminalTheme::Dracula => "Dracula"@,
        TerminalTheme::GithubDark => "GitHub"@,
        TerminalTheme::Monokai => "Monokai"@,
        TerminalTheme::Aura => "Aura"@,
    }
}

impl TerminalTheme {
    /// The place of the theme.
    pub fn index(self) -> (r: usize)
        ensures
            r < 8,
            theme_at(r as int) == self,
    {
        match self {
            TerminalTheme::Default => 0,
            TerminalTheme::Sequoia => 1,
            TerminalTheme::SolarizedDark => 2,
            TerminalTheme::SolarizedLight => 3,
            TerminalTheme::Dracula => 4,
            TerminalTheme::GithubDark => 5,
            TerminalTheme::Monokai => 6,
            TerminalTheme::Aura => 7,
        }
    }

    /// The theme at a place, counted round.
    pub fn from_index(index: usize) -> (r: Self)
        ensures
            r == theme_at(index as int),
    {
        match index % 8 {
            0 => TerminalTheme::Default,
            1 => TerminalTheme::Sequoia,
            2 => TerminalTheme::SolarizedDark,
            3 => TerminalTheme::SolarizedLight,
            4 => TerminalTheme::Dracula,
            5 => TerminalTheme::GithubDark,
            6 => TerminalTheme::Monokai,
            _ => TerminalTheme::Aura,
        }
    }

    /// The name of the theme.
    pub fn label(self) -> (r: &'static str)
        ensures
            r@ == theme_name(self),
    {
        match self {
            TerminalTheme::Default => "Default",
            TerminalTheme::Sequoia => "Sequoia",
            TerminalTheme::SolarizedDark => "Solarized",
            TerminalTheme::SolarizedLight => "Solarized Light",
            TerminalTheme::Dracula => "Dracula",
            TerminalTheme::GithubDark => "GitHub",
            TerminalTheme::Monokai => "Monokai",
            TerminalTheme::Aura => "Aura",
        }
    }
}

/// The number of themes.
pub fn terminal_theme_count() -> (r: usize)
    ensures
        r == 8,
{
    8
}

/// The name of the theme at a place, counted round.
pub fn terminal_theme_label_at(index: usize) -> (r: &'static str)
    ensures
        r@ == theme_name(theme_at(index as int)),
{
    TerminalTheme::from_index(index).label()
}

/// The name of the theme that is set, where `stored` is what was kept of the choice.
pub fn terminal_theme_label(stored: usize) -> (r: &'static str)
    ensures
        r@ == theme_name(theme_at(stored as int)),
{
    TerminalTheme::from_index(stored).label()
}

/// The place of the theme that is set, where `stored` is what was kept of the choice.
pub fn current_terminal_theme_index(stored: usize) -> (r: usize)
    ensures
        r == stored % 8,
{
    let r: usize = TerminalTheme::from_index(stored).index();
    proof {
        law_theme_places_differ(r as int, stored as int);
    }
    r
}

/// Sets the theme at a place, counted round: what is to be kept of the choice, and the name.
pub fn set_terminal_theme(index: usize) -> (r: (usize, &'static str))
    ensures
        r.0 == index % 8,
        r.1@ == theme_name(theme_at(index as int)),
{
    (index % terminal_theme_count(), TerminalTheme::from_index(index).label())
}

/// Two places hold the same theme only where they are the same, counted round: every theme
/// can be set, and is found where it was set.
pub proof fn law_theme_places_differ(a: int, b: int)
    requires
        theme_at(a) == theme_at(b),
    ensures
        a % 8 == b % 8,
{
}

/// The names of the themes, in the order of their places, with a stroke between them.
pub open spec fn theme_names() -> Seq<char> {
    "Default/Sequoia/Solarized/Solarized Light/Dracula/GitHub/Monokai/Aura"@
}

/// The name of the theme at a place is the one at that place of the one list of names.
pub proof fn law_themes_are_named_in_order(index: int)
    requires
        0 <= index < 8,
    ensures
        pieces(theme_names(), '/').len() == 8,
        theme_name(theme_at(index)) == pieces(theme_names(), '/')[index],
{
    reveal_strlit("Default/Sequoia/Solarized/Solarized Light/Dracula/GitHub/Monokai/Aura");
    reveal_strlit("Default");
    reveal_strlit("Sequoia");
    reveal_strlit("Solarized");
    reveal_strlit("Solarized Light");
    reveal_strlit("Dracula");
    reveal_strlit("GitHub");
    reveal_strlit("Monokai");
    reveal_strlit("Aura");
    let all = theme_names();
    let r7 = "Aura"@;
    let r6 = all.skip(57);
    let r5 = all.skip(50);
    let r4 = all.skip(42);
    let r3 = all.skip(26);
    let r2 = all.skip(16);
    let r1 = all.skip(8);
    assert(all =~= "Default"@ + seq!['/'] + r1);
    assert(r1 =~= "Sequoia"@ + seq!['/'] + r2);
    assert(r2 =~= "Solarized"@ + seq!['/'] + r3);
    assert(r3 =~= "Solarized Light"@ + seq!['/'] + r4);
    assert(r4 =~= "Dracula"@ + seq!['/'] + r5);
    assert(r5 =~= "GitHub"@ + seq!['/'] + r6);
    assert(r6 =~= "Monokai"@ + seq!['/'] + r7);
    law_pieces_are_split_at_marks("Default"@, r1, '/');
    law_pieces_are_split_at_marks("Sequoia"@, r2, '/');
    law_pieces_are_split_at_marks("Solarized"@, r3, '/');
    law_pieces_are_split_at_marks("Solarized Light"@, r4, '/');
    law_pieces_are_split_at_marks("Dracula"@, r5, '/');
    law_pieces_are_split_at_marks("GitHub"@, r6, '/');
    law_pieces_are_split_at_marks("Monokai"@, r7, '/');
    law_pieces_are_split_at_marks(r7, Seq::empty(), '/');
    assert(pieces(all, '/') =~= seq![
        "Default"@,
        "Sequoia"@,
        "Solarized"@,
        "Solarized Light"@,
        "Dracula"@,
        "GitHub"@,
        "Monokai"@,
        "Aura"@,
    ]);
}

} // verus!
