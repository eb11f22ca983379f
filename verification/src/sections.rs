//! The three sections of the page: the descriptions each one keeps, and what
//! each one shows for a state of the page.
//!
//! A section stores its descriptions in a slab when it is made and keeps the
//! keys. Its `view` finds the texts again through those keys and says, as a
//! plain value, what is to be drawn.

use crate::asset::{Asset, Icon};
use crate::config::{WorkspaceLayout, WorkspaceMode};
use crate::page::{Message, Page, PageView};
use crate::table::{slab_entries, slab_index, slab_insert, slab_new};
use crate::text::Text;
use slab::Slab;
use vstd::prelude::*;

verus! {

/// One of the two choices of multi-display behaviour. Choosing it sends
/// [`Message::SetWorkspaceMode`] with `mode`.
#[derive(Clone, Copy, Debug, PartialEq, Eq, Structural)]
pub struct ModeOption {
    pub label: Text,
    pub mode: WorkspaceMode,
    /// Whether this is the mode in force.
    pub selected: bool,
    pub illustration: Asset,
}

/// What the section on multi-display behaviour shows.
#[derive(Clone, Copy, Debug, PartialEq, Eq, Structural)]
pub struct MultiBehaviorView {
    pub title: Text,
    pub span: ModeOption,
    pub separate: ModeOption,
}

/// The selector of the thumbnail placement. Choosing an index sends
/// [`Message::SetWorkspaceThumbnailPlacement`] with it.
#[derive(Clone, Copy, Debug, PartialEq, Eq, Structural)]
pub struct PlacementSelector {
    pub label: Text,
    /// The option at index 0.
    pub first: Text,
    /// The option at index 1.
    pub second: Text,
    pub selected: usize,
}

/// One trackpad gesture: what it does, how it is made, and its illustration.
#[derive(Clone, Copy, Debug, PartialEq, Eq, Structural)]
pub struct Gesture {
    pub action: Text,
    pub motion: Text,
    pub illustration: Asset,
}

/// The three gestures shown while the gesture information is unfolded.
#[derive(Clone, Copy, Debug, PartialEq, Eq, Structural)]
pub struct Gestures {
    pub switch_workspace: Gesture,
    pub open_workspaces: Gesture,
    pub open_applications: Gesture,
}

/// The row that unfolds the trackpad gestures, and the gestures while they
/// are unfolded. Pressing the row sends `press`.
#[derive(Clone, Copy, Debug, PartialEq, Eq, Structural)]
pub struct GestureInfo {
    pub label: Text,
    pub icon: Icon,
    pub press: Message,
    pub gestures: Option<Gestures>,
}

/// What the section on orientation shows. Activating an entry of the layout
/// toggle sends [`Message::SetWorkspaceLayout`] with the layout the toggle
/// holds for the entry.
#[derive(Clone, Copy, Debug, PartialEq, Eq, Structural)]
pub struct OrientationView {
    pub title: Text,
    pub illustration: Asset,
    /// The active position of the layout toggle.
    pub layout_position: usize,
    pub placement: PlacementSelector,
    pub gesture_info: GestureInfo,
}

/// The flag that a toggle of the overview section switches.
#[derive(Clone, Copy, Debug, PartialEq, Eq, Structural)]
pub enum ThumbnailFlag {
    Name,
    Number,
}

/// A toggle of the overview section. Switching it sends the message that
/// [`ThumbnailFlag::message`] gives for `flag` and the new value.
#[derive(Clone, Copy, Debug, PartialEq, Eq, Structural)]
pub struct Toggle {
    pub label: Text,
    pub active: bool,
    pub flag: ThumbnailFlag,
}

/// What the section on overview thumbnails shows.
#[derive(Clone, Copy, Debug, PartialEq, Eq, Structural)]
pub struct OverviewView {
    pub title: Text,
    pub first: Toggle,
    pub second: Toggle,
}

/// The section on multi-display behaviour.
pub struct MultiBehavior {
    descriptions: Slab<Text>,
    span: usize,
    separate: usize,
}

/// The section on orientation.
pub struct Orientation {
    descriptions: Slab<Text>,
    thumbnail_placement: usize,
    trackpad_gestures: usize,
    switch_workspace: usize,
    open_workspaces: usize,
    open_applications: usize,
    swipe_horizontal: usize,
    swipe_vertical: usize,
    swipe_up: usize,
    swipe_down: usize,
    swipe_left: usize,
    swipe_right: usize,
}

/// The section on overview thumbnails.
pub struct Overview {
    descriptions: Slab<Text>,
    show_number: usize,
    show_name: usize,
}

/// A section of the page.
pub enum Section {
    MultiBehavior(MultiBehavior),
    Orientation(Orientation),
    Overview(Overview),
}

/// How the page presents itself to the host: a stable identifier, the name of
/// its icon, and the texts of its title and description.
#[derive(Clone, Copy, Debug, PartialEq, Eq)]
pub struct Info {
    pub id: &'static str,
    pub icon: &'static str,
    pub title: Text,
    pub description: Text,
}

/// `entries` holds `text` under `key`.
pub open spec fn holds(entries: Map<usize, Text>, key: usize, text: Text) -> bool {
    entries.dom().contains(key) && entries[key] == text
}

/// `entries` holds `count` texts in all.
pub open spec fn counts(entries: Map<usize, Text>, count: nat) -> bool {
    entries.dom().finite() && entries.dom().len() == count
}

impl ThumbnailFlag {
    pub open spec fn message_spec(self, value: bool) -> Message {
        match self {
            ThumbnailFlag::Name => Message::SetShowName(value),
            ThumbnailFlag::Number => Message::SetShowNumber(value),
        }
    }

    /// The message that sets the flag to `value`.
    #[verifier::when_used_as_spec(message_spec)]
    pub fn message(self, value: bool) -> (message: Message)
        ensures
            message == self.message_spec(value),
    {
        match self {
            ThumbnailFlag::Name => Message::SetShowName(value),
            ThumbnailFlag::Number => Message::SetShowNumber(value),
        }
    }
}

impl MultiBehaviorView {
    /// The section's content for a state of the page: the spanning mode
    /// first, then the mode with separate workspaces per display.
    pub open spec fn of(page: PageView) -> MultiBehaviorView {
        MultiBehaviorView {
            title: Text::MultiBehavior,
            span: ModeOption {
                label: Text::Span,
                mode: WorkspaceMode::Global,
                selected: page.config.workspace_mode == WorkspaceMode::Global,
                illustration: Asset::WorkspaceSpanDisplay,
            },
            separate: ModeOption {
                label: Text::Separate,
                mode: WorkspaceMode::OutputBound,
                selected: page.config.workspace_mode == WorkspaceMode::OutputBound,
                illustration: Asset::WorkspaceSeparateDisplay,
            },
        }
    }
}

impl Gestures {
    /// The gestures for a layout: workspaces are switched along the layout's
    /// axis, the two views are opened across it.
    pub open spec fn of(layout: WorkspaceLayout) -> Gestures {
        match layout {
            WorkspaceLayout::Vertical => Gestures {
                switch_workspace: Gesture {
                    action: Text::SwitchWorkspace,
                    motion: Text::SwipeVertical,
                    illustration: Asset::TrackpadGestureSwipeVertical,
                },
                open_workspaces: Gesture {
                    action: Text::OpenWorkspaces,
                    motion: Text::SwipeLeft,
                    illustration: Asset::TrackpadGestureSwipeLeft,
                },
                open_applications: Gesture {
                    action: Text::OpenApplications,
                    motion: Text::SwipeRight,
                    illustration: Asset::TrackpadGestureSwipeRight,
                },
            },
            WorkspaceLayout::Horizontal => Gestures {
                switch_workspace: Gesture {
                    action: Text::SwitchWorkspace,
                    motion: Text::SwipeHorizontal,
                    illustration: Asset::TrackpadGestureSwipeHorizontal,
                },
                open_workspaces: Gesture {
                    action: Text::OpenWorkspaces,
                    motion: Text::SwipeUp,
                    illustration: Asset::TrackpadGestureSwipeUp,
                },
                open_applications: Gesture {
                    action: Text::OpenApplications,
                    motion: Text::SwipeDown,
                    illustration: Asset::TrackpadGestureSwipeDown,
                },
            },
        }
    }
}

impl OrientationView {
    /// The section's content for a state of the page.
    pub open spec fn of(page: PageView) -> OrientationView {
        let layout = page.config.workspace_layout;
        OrientationView {
            title: Text::Orientation,
            illustration: match layout {
                WorkspaceLayout::Vertical => Asset::WorkspaceOrientationVertical,
                WorkspaceLayout::Horizontal => Asset::WorkspaceOrientationHorizontal,
            },
            layout_position: page.layout_position,
            placement: PlacementSelector {
                label: Text::ThumbnailPlacement,
                first: page.placement_options[0],
                second: page.placement_options[1],
                selected: page.selected_placement,
            },
            gesture_info: GestureInfo {
                label: Text::TrackpadGestures,
                icon: if page.show_trackpad_gesture {
                    Icon::GoUp
                } else {
                    Icon::GoDown
                },
                press: Message::ShowTrackpadGestureInfo(!page.show_trackpad_gesture),
                gestures: if page.show_trackpad_gesture {
                    Some(Gestures::of(layout))
                } else {
                    None
                },
            },
        }
    }
}

impl OverviewView {
    /// The section's content for a state of the page. The toggle labelled
    /// with the number shows and sets the name flag, and the toggle labelled
    /// with the name shows and sets the number flag: the bindings stand
    /// crosswise to the labels, and are kept so until it is settled which of
    /// the two is meant.
    pub open spec fn of(page: PageView) -> OverviewView {
        OverviewView {
            title: Text::OverviewThumbnails,
            first: Toggle {
                label: Text::ShowNumber,
                active: page.show_workspace_name,
                flag: ThumbnailFlag::Name,
            },
            second: Toggle {
                label: Text::ShowName,
                active: page.show_workspace_number,
                flag: ThumbnailFlag::Number,
            },
        }
    }
}

impl MultiBehavior {
    /// The descriptions of the section, by key.
    pub closed spec fn entries(&self) -> Map<usize, Text> {
        slab_entries(self.descriptions)
    }

    /// The keys under which the section finds its descriptions again, in the
    /// order of [`MultiBehavior::texts`].
    pub closed spec fn keys(&self) -> Seq<usize> {
        seq![self.span, self.separate]
    }

    /// The descriptions of the section, in the order in which they are stored.
    pub open spec fn texts() -> Seq<Text> {
        seq![Text::Span, Text::Separate]
    }

    /// Each description lies under its key, and there are no others.
    pub open spec fn wf(&self) -> bool {
        &&& self.keys().len() == Self::texts().len()
        &&& forall|i: int|
            0 <= i < Self::texts().len() ==> holds(
                self.entries(),
                #[trigger] self.keys()[i],
                Self::texts()[i],
            )
        &&& counts(self.entries(), Self::texts().len())
    }

    #[verifier::type_invariant]
    spec fn well_formed(&self) -> bool {
        self.wf()
    }

    pub fn title(&self) -> (title: Text)
        ensures
            title == Text::MultiBehavior,
    {
        Text::MultiBehavior
    }

    /// The table of descriptions.
    pub fn descriptions(&self) -> (table: &Slab<Text>)
        ensures
            slab_entries(*table) == self.entries(),
            self.wf(),
    {
        proof {
            use_type_invariant(self);
        }
        &self.descriptions
    }

    /// What the section shows for `page`.
    pub fn view(&self, page: &Page) -> (view: MultiBehaviorView)
        ensures
            view == MultiBehaviorView::of(page@),
    {
        proof {
            use_type_invariant(self);
            assert(holds(self.entries(), self.keys()[0], Self::texts()[0]));
            assert(holds(self.entries(), self.keys()[1], Self::texts()[1]));
        }
        let mode = page.config().workspace_mode;
        MultiBehaviorView {
            title: self.title(),
            span: ModeOption {
                label: slab_index(&self.descriptions, self.span),
                mode: WorkspaceMode::Global,
                selected: mode == WorkspaceMode::Global,
                illustration: Asset::WorkspaceSpanDisplay,
            },
            separate: ModeOption {
                label: slab_index(&self.descriptions, self.separate),
                mode: WorkspaceMode::OutputBound,
                selected: mode == WorkspaceMode::OutputBound,
                illustration: Asset::WorkspaceSeparateDisplay,
            },
        }
    }
}

/// Makes the section on multi-display behaviour, with its two descriptions
/// stored.
pub fn multi_behavior() -> (section: MultiBehavior)
    ensures
        section.wf(),
{
    let mut descriptions = slab_new();
    let span = slab_insert(&mut descriptions, Text::Span);
    let separate = slab_insert(&mut descriptions, Text::Separate);
    MultiBehavior { descriptions, span, separate }
}

impl Orientation {
    /// The descriptions of the section, by key.
    pub closed spec fn entries(&self) -> Map<usize, Text> {
        slab_entries(self.descriptions)
    }

    /// The keys under which the section finds its descriptions again, in the
    /// order of [`Orientation::texts`].
    pub closed spec fn keys(&self) -> Seq<usize> {
        seq![
            self.thumbnail_placement,
            self.trackpad_gestures,
            self.switch_workspace,
            self.open_workspaces,
            self.open_applications,
            self.swipe_horizontal,
            self.swipe_vertical,
            self.swipe_up,
            self.swipe_down,
            self.swipe_left,
            self.swipe_right,
        ]
    }

    /// The descriptions of the section, in the order in which they are stored.
    pub open spec fn texts() -> Seq<Text> {
        seq![
            Text::ThumbnailPlacement,
            Text::TrackpadGestures,
            Text::SwitchWorkspace,
            Text::OpenWorkspaces,
            Text::OpenApplications,
            Text::SwipeHorizontal,
            Text::SwipeVertical,
            Text::SwipeUp,
            Text::SwipeDown,
            Text::SwipeLeft,
            Text::SwipeRight,
        ]
    }

    /// Each description lies under its key, and there are no others.
    pub open spec fn wf(&self) -> bool {
        &&& self.keys().len() == Self::texts().len()
        &&& forall|i: int|
            0 <= i < Self::texts().len() ==> holds(
                self.entries(),
                #[trigger] self.keys()[i],
                Self::texts()[i],
            )
        &&& counts(self.entries(), Self::texts().len())
    }

    #[verifier::type_invariant]
    spec fn well_formed(&self) -> bool {
        self.wf()
    }

    pub fn title(&self) -> (title: Text)
        ensures
            title == Text::Orientation,
    {
        Text::Orientation
    }

    /// The table of descriptions.
    pub fn descriptions(&self) -> (table: &Slab<Text>)
        ensures
            slab_entries(*table) == self.entries(),
            self.wf(),
    {
        proof {
            use_type_invariant(self);
        }
        &self.descriptions
    }

    /// The description stored under `key`, which is one of the section's own.
    fn text(&self, key: usize, Ghost(i): Ghost<int>) -> (text: Text)
        requires
            0 <= i < Self::texts().len(),
            key == self.keys()[i],
        ensures
            text == Self::texts()[i],
    {
        proof {
            use_type_invariant(self);
            assert(holds(self.entries(), self.keys()[i], Self::texts()[i]));
        }
        slab_index(&self.descriptions, key)
    }

    /// The three gestures for `layout`.
    fn gestures(&self, layout: WorkspaceLayout) -> (gestures: Gestures)
        ensures
            gestures == Gestures::of(layout),
    {
        let (switch_ws, open_ws, open_app) = match layout {
            WorkspaceLayout::Vertical => (
                Asset::TrackpadGestureSwipeVertical,
                Asset::TrackpadGestureSwipeLeft,
                Asset::TrackpadGestureSwipeRight,
            ),
            WorkspaceLayout::Horizontal => (
                Asset::TrackpadGestureSwipeHorizontal,
                Asset::TrackpadGestureSwipeUp,
                Asset::TrackpadGestureSwipeDown,
            ),
        };
        let (switch_ws_label, open_ws_label, open_app_label) = match layout {
            WorkspaceLayout::Vertical => (
                self.text(self.swipe_vertical, Ghost(6)),
                self.text(self.swipe_left, Ghost(9)),
                self.text(self.swipe_right, Ghost(10)),
            ),
            WorkspaceLayout::Horizontal => (
                self.text(self.swipe_horizontal, Ghost(5)),
                self.text(self.swipe_up, Ghost(7)),
                self.text(self.swipe_down, Ghost(8)),
            ),
        };
        Gestures {
            switch_workspace: Gesture {
                action: self.text(self.switch_workspace, Ghost(2)),
                motion: switch_ws_label,
                illustration: switch_ws,
            },
            open_workspaces: Gesture {
                action: self.text(self.open_workspaces, Ghost(3)),
                motion: open_ws_label,
                illustration: open_ws,
            },
            open_applications: Gesture {
                action: self.text(self.open_applications, Ghost(4)),
                motion: open_app_label,
                illustration: open_app,
            },
        }
    }

    /// What the section shows for `page`.
    pub fn view(&self, page: &Page) -> (view: OrientationView)
        ensures
            view == OrientationView::of(page@),
    {
        let layout = page.config().workspace_layout;
        let options = page.placement_options();
        let shown = page.show_trackpad_gesture();
        OrientationView {
            title: self.title(),
            illustration: match layout {
                WorkspaceLayout::Vertical => Asset::WorkspaceOrientationVertical,
                WorkspaceLayout::Horizontal => Asset::WorkspaceOrientationHorizontal,
            },
            layout_position: page.layout_position(),
            placement: PlacementSelector {
                label: self.text(self.thumbnail_placement, Ghost(0)),
                first: options[0],
                second: options[1],
                selected: page.selected_placement(),
            },
            gesture_info: GestureInfo {
                label: self.text(self.trackpad_gestures, Ghost(1)),
                icon: if shown {
                    Icon::GoUp
                } else {
                    Icon::GoDown
                },
                press: Message::ShowTrackpadGestureInfo(!shown),
                gestures: if shown {
                    Some(self.gestures(layout))
                } else {
                    None
                },
            },
        }
    }
}

/// Makes the section on orientation, with its eleven descriptions stored.
pub fn workspace_orientation() -> (section: Orientation)
    ensures
        section.wf(),
{
    let mut descriptions = slab_new();
    let thumbnail_placement = slab_insert(&mut descriptions, Text::ThumbnailPlacement);
    let trackpad_gestures = slab_insert(&mut descriptions, Text::TrackpadGestures);
    let switch_workspace = slab_insert(&mut descriptions, Text::SwitchWorkspace);
    let open_workspaces = slab_insert(&mut descriptions, Text::OpenWorkspaces);
    let open_applications = slab_insert(&mut descriptions, Text::OpenApplications);
    let swipe_horizontal = slab_insert(&mut descriptions, Text::SwipeHorizontal);
    let swipe_vertical = slab_insert(&mut descriptions, Text::SwipeVertical);
    let swipe_up = slab_insert(&mut descriptions, Text::SwipeUp);
    let swipe_down = slab_insert(&mut descriptions, Text::SwipeDown);
    let swipe_left = slab_insert(&mut descriptions, Text::SwipeLeft);
    let swipe_right = slab_insert(&mut descriptions, Text::SwipeRight);
    Orientation {
        descriptions,
        thumbnail_placement,
        trackpad_gestures,
        switch_workspace,
        open_workspaces,
        open_applications,
        swipe_horizontal,
        swipe_vertical,
        swipe_up,
        swipe_down,
        swipe_left,
        swipe_right,
    }
}

impl Overview {
    /// The descriptions of the section, by key.
    pub closed spec fn entries(&self) -> Map<usize, Text> {
        slab_entries(self.descriptions)
    }

    /// The keys under which the section finds its descriptions again, in the
    /// order of [`Overview::texts`].
    pub closed spec fn keys(&self) -> Seq<usize> {
        seq![self.show_number, self.show_name]
    }

    /// The descriptions of the section, in the order in which they are stored.
    pub open spec fn texts() -> Seq<Text> {
        seq![Text::ShowNumber, Text::ShowName]
    }

    /// Each description lies under its key, and there are no others.
    pub open spec fn wf(&self) -> bool {
        &&& self.keys().len() == Self::texts().len()
        &&& forall|i: int|
            0 <= i < Self::texts().len() ==> holds(
                self.entries(),
                #[trigger] self.keys()[i],
                Self::texts()[i],
            )
        &&& counts(self.entries(), Self::texts().len())
    }

    #[verifier::type_invariant]
    spec fn well_formed(&self) -> bool {
        self.wf()
    }

    pub fn title(&self) -> (title: Text)
        ensures
            title == Text::OverviewThumbnails,
    {
        Text::OverviewThumbnails
    }

    /// The table of descriptions.
    pub fn descriptions(&self) -> (table: &Slab<Text>)
        ensures
            slab_entries(*table) == self.entries(),
            self.wf(),
    {
        proof {
            use_type_invariant(self);
        }
        &self.descriptions
    }

    /// What the section shows for `page`.
    pub fn view(&self, page: &Page) -> (view: OverviewView)
        ensures
            view == OverviewView::of(page@),
    {
        proof {
            use_type_invariant(self);
            assert(holds(self.entries(), self.keys()[0], Self::texts()[0]));
            assert(holds(self.entries(), self.keys()[1], Self::texts()[1]));
        }
        OverviewView {
            title: self.title(),
            first: Toggle {
                label: slab_index(&self.descriptions, self.show_number),
                active: page.show_workspace_name(),
                flag: ThumbnailFlag::Name,
            },
            second: Toggle {
                label: slab_index(&self.descriptions, self.show_name),
                active: page.show_workspace_number(),
                flag: ThumbnailFlag::Number,
            },
        }
    }
}

/// Makes the section on overview thumbnails, with its two descriptions
/// stored.
pub fn workspace_overview() -> (section: Overview)
    ensures
        section.wf(),
{
    let mut descriptions = slab_new();
    let show_number = slab_insert(&mut descriptions, Text::ShowNumber);
    let show_name = slab_insert(&mut descriptions, Text::ShowName);
    Overview { descriptions, show_number, show_name }
}

impl Section {
    /// The section's table is well formed.
    pub open spec fn wf(&self) -> bool {
        match self {
            Section::MultiBehavior(section) => section.wf(),
            Section::Orientation(section) => section.wf(),
            Section::Overview(section) => section.wf(),
        }
    }

    pub open spec fn title_spec(&self) -> Text {
        match self {
            Section::MultiBehavior(_) => Text::MultiBehavior,
            Section::Orientation(_) => Text::Orientation,
            Section::Overview(_) => Text::OverviewThumbnails,
        }
    }

    /// The descriptions of the section, by key.
    pub open spec fn entries(&self) -> Map<usize, Text> {
        match self {
            Section::MultiBehavior(section) => section.entries(),
            Section::Orientation(section) => section.entries(),
            Section::Overview(section) => section.entries(),
        }
    }

    pub fn title(&self) -> (title: Text)
        ensures
            title == self.title_spec(),
    {
        match self {
            Section::MultiBehavior(section) => section.title(),
            Section::Orientation(section) => section.title(),
            Section::Overview(section) => section.title(),
        }
    }

    /// The table of descriptions.
    pub fn descriptions(&self) -> (table: &Slab<Text>)
        ensures
            slab_entries(*table) == self.entries(),
            self.wf(),
    {
        match self {
            Section::MultiBehavior(section) => section.descriptions(),
            Section::Orientation(section) => section.descriptions(),
            Section::Overview(section) => section.descriptions(),
        }
    }
}

impl Page {
    /// The sections of the page, in the order in which they are shown:
    /// multi-display behaviour, orientation, overview thumbnails.
    pub fn content(&self) -> (content: Option<Vec<Section>>)
        ensures
            content matches Some(sections) && {
                &&& sections@.len() == 3
                &&& sections@[0] is MultiBehavior
                &&& sections@[1] is Orientation
                &&& sections@[2] is Overview
                &&& forall|i: int| 0 <= i < 3 ==> (#[trigger] sections@[i]).wf()
            },
    {
        let mut sections: Vec<Section> = Vec::new();
        sections.push(Section::MultiBehavior(multi_behavior()));
        sections.push(Section::Orientation(workspace_orientation()));
        sections.push(Section::Overview(workspace_overview()));
        Some(sections)
    }

    /// How the page presents itself to the host.
    pub fn info(&self) -> (info: Info)
        ensures
            info.id@ == "workspaces"@,
            info.icon@ == "preferences-workspaces-symbolic"@,
            info.title == Text::Workspaces,
            info.description == Text::WorkspacesDesc,
    {
        Info {
            id: "workspaces",
            icon: "preferences-workspaces-symbolic",
            title: Text::Workspaces,
            description: Text::WorkspacesDesc,
        }
    }
}

} // verus!
