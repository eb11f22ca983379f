//! The texts the page shows, each named by the message and attribute under
//! which the message catalogue holds it.

use vstd::prelude::*;

verus! {

/// One localisable text of the page.
#[derive(Clone, Copy, Debug, PartialEq, Eq, Structural)]
pub enum Text {
    /// The page's title.
    Workspaces,
    /// The page's description.
    WorkspacesDesc,
    /// Title of the section on multi-display behaviour.
    MultiBehavior,
    Span,
    Separate,
    /// Title of the section on orientation.
    Orientation,
    Vertical,
    Horizontal,
    ThumbnailPlacement,
    TrackpadGestures,
    SwitchWorkspace,
    OpenWorkspaces,
    OpenApplications,
    SwipeHorizontal,
    SwipeVertical,
    SwipeUp,
    SwipeDown,
    SwipeLeft,
    SwipeRight,
    Top,
    Bottom,
    Left,
    Right,
    /// Title of the section on overview thumbnails.
    OverviewThumbnails,
    ShowNumber,
    ShowName,
}

impl Text {
    /// The catalogue message that holds the text.
    pub open spec fn message_spec(self) -> Seq<char> {
        match self {
            Text::Workspaces | Text::WorkspacesDesc => "workspaces"@,
            Text::MultiBehavior | Text::Span | Text::Separate => "workspaces-multi-behavior"@,
            Text::OverviewThumbnails | Text::ShowNumber | Text::ShowName =>
                "workspaces-overview-thumbnails"@,
            _ => "workspaces-orientation"@,
        }
    }

    /// The attribute of the message that holds the text; `None` where the text
    /// is the message's own value.
    pub open spec fn attribute_spec(self) -> Option<Seq<char>> {
        match self {
            Text::Workspaces | Text::MultiBehavior | Text::Orientation | Text::OverviewThumbnails =>
                None,
            Text::WorkspacesDesc => Some("desc"@),
            Text::Span => Some("span"@),
            Text::Separate => Some("separate"@),
            Text::Vertical => Some("vertical"@),
            Text::Horizontal => Some("horizontal"@),
            Text::ThumbnailPlacement => Some("thumbnail-placement"@),
            Text::TrackpadGestures => Some("trackpad-gestures"@),
            Text::SwitchWorkspace => Some("switch-workspace"@),
            Text::OpenWorkspaces => Some("open-workspaces"@),
            Text::OpenApplications => Some("open-applications"@),
            Text::SwipeHorizontal => Some("swipe-horizontal"@),
            Text::SwipeVertical => Some("swipe-vertical"@),
            Text::SwipeUp => Some("swipe-up"@),
            Text::SwipeDown => Some("swipe-down"@),
            Text::SwipeLeft => Some("swipe-left"@),
            Text::SwipeRight => Some("swipe-right"@),
            Text::Top => Some("top"@),
            Text::Bottom => Some("bottom"@),
            Text::Left => Some("left"@),
            Text::Right => Some("right"@),
            Text::ShowNumber => Some("show-number"@),
            Text::ShowName => Some("show-name"@),
        }
    }

    pub fn message(self) -> (id: &'static str)
        ensures
            id@ == self.message_spec(),
    {
        match self {
            Text::Workspaces | Text::WorkspacesDesc => "workspaces",
            Text::MultiBehavior | Text::Span | Text::Separate => "workspaces-multi-behavior",
            Text::OverviewThumbnails | Text::ShowNumber | Text::ShowName =>
                "workspaces-overview-thumbnails",
            _ => "workspaces-orientation",
        }
    }

    pub fn attribute(self) -> (id: Option<&'static str>)
        ensures
            id matches Some(a) ==> self.attribute_spec() == Some(a@),
            id is None ==> self.attribute_spec() is None,
    {
        match self {
            Text::Workspaces | Text::MultiBehavior | Text::Orientation | Text::OverviewThumbnails =>
                None,
            Text::WorkspacesDesc => Some("desc"),
            Text::Span => Some("span"),
            Text::Separate => Some("separate"),
            Text::Vertical => Some("vertical"),
            Text::Horizontal => Some("horizontal"),
            Text::ThumbnailPlacement => Some("thumbnail-placement"),
            Text::TrackpadGestures => Some("trackpad-gestures"),
            Text::SwitchWorkspace => Some("switch-workspace"),
            Text::OpenWorkspaces => Some("open-workspaces"),
            Text::OpenApplications => Some("open-applications"),
            Text::SwipeHorizontal => Some("swipe-horizontal"),
            Text::SwipeVertical => Some("swipe-vertical"),
            Text::SwipeUp => Some("swipe-up"),
            Text::SwipeDown => Some("swipe-down"),
            Text::SwipeLeft => Some("swipe-left"),
            Text::SwipeRight => Some("swipe-right"),
            Text::Top => Some("top"),
            Text::Bottom => Some("bottom"),
            Text::Left => Some("left"),
            Text::Right => Some("right"),
            Text::ShowNumber => Some("show-number"),
            Text::ShowName => Some("show-name"),
        }
    }
}

} // verus!
