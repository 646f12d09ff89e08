use vstd::prelude::*;

verus! {

/// The screens of the program, in the order in which Enter walks through them.
#[derive(Debug, Clone, Copy, PartialEq, Eq, Structural)]
pub enum AppState {
    Welcome,
    SelectingAurPackages,
    SelectingOfficialPackages,
    SelectingIgnoredPackages,
    SelectingDotfiles,
    SelectingHomeDotfiles,
    Summary,
    Building,
    Complete,
    Error,
}

/// The five lists from which the user picks entries.
#[derive(Debug, Clone, Copy, PartialEq, Eq, Structural)]
pub enum ListKind {
    Aur,
    Official,
    Ignored,
    Dotfiles,
    HomeDotfiles,
}

impl AppState {
    /// The list that this screen shows, if it shows one.
    pub open spec fn list_kind(self) -> Option<ListKind> {
        match self {
            AppState::SelectingAurPackages => Some(ListKind::Aur),
            AppState::SelectingOfficialPackages => Some(ListKind::Official),
            AppState::SelectingIgnoredPackages => Some(ListKind::Ignored),
            AppState::SelectingDotfiles => Some(ListKind::Dotfiles),
            AppState::SelectingHomeDotfiles => Some(ListKind::HomeDotfiles),
            _ => None,
        }
    }

    /// The list that this screen shows, if it shows one.
    pub fn list(&self) -> (res: Option<ListKind>)
        ensures
            res == self.list_kind(),
    {
        match self {
            AppState::SelectingAurPackages => Some(ListKind::Aur),
            AppState::SelectingOfficialPackages => Some(ListKind::Official),
            AppState::SelectingIgnoredPackages => Some(ListKind::Ignored),
            AppState::SelectingDotfiles => Some(ListKind::Dotfiles),
            AppState::SelectingHomeDotfiles => Some(ListKind::HomeDotfiles),
            _ => None,
        }
    }

    /// The screen that shows the list `k`.
    pub open spec fn showing(k: ListKind) -> AppState {
        match k {
            ListKind::Aur => AppState::SelectingAurPackages,
            ListKind::Official => AppState::SelectingOfficialPackages,
            ListKind::Ignored => AppState::SelectingIgnoredPackages,
            ListKind::Dotfiles => AppState::SelectingDotfiles,
            ListKind::HomeDotfiles => AppState::SelectingHomeDotfiles,
        }
    }
}

} // verus!
