//! The illustrations and icons the page shows, and where an illustration's
//! file lies for a theme.

use vstd::prelude::*;

verus! {

/// An illustration, named by what it depicts.
#[derive(Clone, Copy, Debug, PartialEq, Eq, Structural)]
pub enum Asset {
    WorkspaceSpanDisplay,
    WorkspaceSeparateDisplay,
    WorkspaceOrientationVertical,
    WorkspaceOrientationHorizontal,
    TrackpadGestureSwipeVertical,
    TrackpadGestureSwipeHorizontal,
    TrackpadGestureSwipeLeft,
    TrackpadGestureSwipeUp,
    TrackpadGestureSwipeRight,
    TrackpadGestureSwipeDown,
}

/// The variant of the interface theme that selects an illustration's file.
#[derive(Clone, Copy, Debug, PartialEq, Eq, Structural)]
pub enum Theme {
    Dark,
    Light,
}

/// The icon on the control that unfolds the trackpad gestures.
#[derive(Clone, Copy, Debug, PartialEq, Eq, Structural)]
pub enum Icon {
    GoUp,
    GoDown,
}

impl Asset {
    /// The slug of the illustration: its path below the resources directory,
    /// without theme and extension.
    pub open spec fn slug_spec(self) -> Seq<char> {
        match self {
            Asset::WorkspaceSpanDisplay => "assets/workspace-span-display"@,
            Asset::WorkspaceSeparateDisplay => "assets/workspace-separate-display"@,
            Asset::WorkspaceOrientationVertical => "assets/workspace-orientation-vertical"@,
            Asset::WorkspaceOrientationHorizontal => "assets/workspace-orientation-horizontal"@,
            Asset::TrackpadGestureSwipeVertical => "assets/trackpad-gesture-swipe-vertical"@,
            Asset::TrackpadGestureSwipeHorizontal => "assets/trackpad-gesture-swipe-horizontal"@,
            Asset::TrackpadGestureSwipeLeft => "assets/trackpad-gesture-swipe-left"@,
            Asset::TrackpadGestureSwipeUp => "assets/trackpad-gesture-swipe-up"@,
            Asset::TrackpadGestureSwipeRight => "assets/trackpad-gesture-swipe-right"@,
            Asset::TrackpadGestureSwipeDown => "assets/trackpad-gesture-swipe-down"@,
        }
    }

    /// The file of the illustration for a theme, relative to the directory the
    /// program runs in: the resources directory, the slug, a hyphen, the
    /// theme's name and the extension.
    pub open spec fn path_spec(self, theme: Theme) -> Seq<char> {
        "../resources/"@ + self.slug_spec() + "-"@ + theme.name_spec() + ".svg"@
    }

    /// The slug of the illustration.
    pub fn slug(self) -> (slug: &'static str)
        ensures
            slug@ == self.slug_spec(),
    {
        match self {
            Asset::WorkspaceSpanDisplay => "assets/workspace-span-display",
            Asset::WorkspaceSeparateDisplay => "assets/workspace-separate-display",
            Asset::WorkspaceOrientationVertical => "assets/workspace-orientation-vertical",
            Asset::WorkspaceOrientationHorizontal => "assets/workspace-orientation-horizontal",
            Asset::TrackpadGestureSwipeVertical => "assets/trackpad-gesture-swipe-vertical",
            Asset::TrackpadGestureSwipeHorizontal => "assets/trackpad-gesture-swipe-horizontal",
            Asset::TrackpadGestureSwipeLeft => "assets/trackpad-gesture-swipe-left",
            Asset::TrackpadGestureSwipeUp => "assets/trackpad-gesture-swipe-up",
            Asset::TrackpadGestureSwipeRight => "assets/trackpad-gesture-swipe-right",
            Asset::TrackpadGestureSwipeDown => "assets/trackpad-gesture-swipe-down",
        }
    }

    /// The file that holds the illustration for `theme`. Whether the file is
    /// there is for the caller to find out.
    pub fn path(self, theme: Theme) -> (path: String)
        ensures
            path@ == self.path_spec(theme),
    {
        let mut path = String::from_str("../resources/");
        path.append(self.slug());
        path.append("-");
        path.append(theme.name());
        path.append(".svg");
        path
    }
}

impl Theme {
    pub open spec fn of_spec(is_dark: bool) -> Theme {
        if is_dark {
            Theme::Dark
        } else {
            Theme::Light
        }
    }

    pub open spec fn name_spec(self) -> Seq<char> {
        match self {
            Theme::Dark => "dark"@,
            Theme::Light => "light"@,
        }
    }

    /// The theme variant for the interface's dark flag.
    #[verifier::when_used_as_spec(of_spec)]
    pub fn of(is_dark: bool) -> (theme: Theme)
        ensures
            theme == Theme::of_spec(is_dark),
    {
        if is_dark {
            Theme::Dark
        } else {
            Theme::Light
        }
    }

    pub fn name(self) -> (name: &'static str)
        ensures
            name@ == self.name_spec(),
    {
        match self {
            Theme::Dark => "dark",
            Theme::Light => "light",
        }
    }
}

impl Icon {
    pub open spec fn name_spec(self) -> Seq<char> {
        match self {
            Icon::GoUp => "go-up-symbolic"@,
            Icon::GoDown => "go-down-symbolic"@,
        }
    }

    pub fn name(self) -> (name: &'static str)
        ensures
            name@ == self.name_spec(),
    {
        match self {
            Icon::GoUp => "go-up-symbolic",
            Icon::GoDown => "go-down-symbolic",
        }
    }
}

} // verus!
