//! The closed set of visual themes and the fixed cycle the theme key
//! steps through. The colour palettes themselves are presentation and
//! live with the renderer.

use vstd::prelude::*;

verus! {

#[derive(Clone, Copy, Debug, PartialEq, Eq, Structural)]
pub enum ThemeKind {
    Dark,
    Stellar,
    Matrix,
}

/// Forward cycle Dark -> Stellar -> Matrix -> Dark; backward reversed.
pub open spec fn next_theme(k: ThemeKind, forward: bool) -> ThemeKind {
    match (k, forward) {
        (ThemeKind::Dark, true) => ThemeKind::Stellar,
        (ThemeKind::Stellar, true) => ThemeKind::Matrix,
        (ThemeKind::Matrix, true) => ThemeKind::Dark,
        (ThemeKind::Dark, false) => ThemeKind::Matrix,
        (ThemeKind::Stellar, false) => ThemeKind::Dark,
        (ThemeKind::Matrix, false) => ThemeKind::Stellar,
    }
}

/// The theme a configured name selects; anything unrecognized falls
/// back to the default theme.
pub open spec fn theme_of_name(n: Seq<char>) -> ThemeKind {
    if n == "dark"@ {
        ThemeKind::Dark
    } else if n == "matrix"@ {
        ThemeKind::Matrix
    } else {
        ThemeKind::Stellar
    }
}

/// The name under which a theme is persisted.
pub open spec fn theme_name_of(k: ThemeKind) -> Seq<char> {
    match k {
        ThemeKind::Dark => "dark"@,
        ThemeKind::Stellar => "stellar"@,
        ThemeKind::Matrix => "matrix"@,
    }
}

impl ThemeKind {
    pub fn cycle(self, forward: bool) -> (r: ThemeKind)
        ensures
            r == next_theme(self, forward),
    {
        match (self, forward) {
            (ThemeKind::Dark, true) => ThemeKind::Stellar,
            (ThemeKind::Stellar, true) => ThemeKind::Matrix,
            (ThemeKind::Matrix, true) => ThemeKind::Dark,
            (ThemeKind::Dark, false) => ThemeKind::Matrix,
            (ThemeKind::Stellar, false) => ThemeKind::Dark,
            (ThemeKind::Matrix, false) => ThemeKind::Stellar,
        }
    }

    /// The name under which this theme is persisted.
    pub fn name(self) -> (r: String)
        ensures
            r@ == theme_name_of(self),
    {
        match self {
            ThemeKind::Dark => "dark".to_owned(),
            ThemeKind::Stellar => "stellar".to_owned(),
            ThemeKind::Matrix => "matrix".to_owned(),
        }
    }
}

/// The theme selected by an optional configured name.
pub fn theme_from_name(name: Option<&String>) -> (r: ThemeKind)
    ensures
        name matches Some(n) ==> r == theme_of_name(n@),
        name is None ==> r == ThemeKind::Stellar,
{
    match name {
        Some(n) => {
            let dark: String = "dark".to_owned();
            let matrix: String = "matrix".to_owned();
            if *n == dark {
                ThemeKind::Dark
            } else if *n == matrix {
                ThemeKind::Matrix
            } else {
                ThemeKind::Stellar
            }
        },
        None => ThemeKind::Stellar,
    }
}

} // verus!
