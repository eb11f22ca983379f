//! The page's state, the messages that change it, and what each message
//! asks the host to do afterwards.

use crate::config::{WorkspaceConfig, WorkspaceLayout, WorkspaceMode, WorkspaceThumbnailPlacement};
use crate::store::{ConfigKey, Namespace, Read};
use crate::text::Text;
use vstd::prelude::*;

verus! {

/// A user interaction, as the page receives it.
#[derive(Clone, Copy, Debug, PartialEq, Eq, Structural)]
pub enum Message {
    SetWorkspaceMode(WorkspaceMode),
    /// An entry of the layout toggle was activated. The payload is the layout
    /// that the toggle holds for that entry, `None` where it holds none.
    SetWorkspaceLayout(Option<WorkspaceLayout>),
    /// An index of the placement selector was chosen: 0 or 1.
    SetWorkspaceThumbnailPlacement(usize),
    ShowTrackpadGestureInfo(bool),
    SetShowName(bool),
    SetShowNumber(bool),
}

/// What has to be written to the configuration store.
#[derive(Clone, Copy, Debug, PartialEq, Eq, Structural)]
pub enum Persist {
    /// No write.
    Nothing,
    /// The aggregate record, under [`ConfigKey::Workspaces`].
    Workspaces(WorkspaceConfig),
    /// The flag under [`ConfigKey::ShowWorkspaceName`].
    ShowWorkspaceName(bool),
    /// The flag under [`ConfigKey::ShowWorkspaceNumber`].
    ShowWorkspaceNumber(bool),
}

/// What the host has to do after a message was applied. A write that fails is
/// reported by the host and changes nothing in the page.
#[derive(Clone, Copy, Debug, PartialEq, Eq, Structural)]
pub struct Effect {
    /// The one write to make, if any.
    pub persist: Persist,
    /// The position to activate in the layout toggle, if it has to follow.
    pub activate: Option<usize>,
}

/// The page's state as a mathematical value.
pub struct PageView {
    pub config: WorkspaceConfig,
    pub show_workspace_name: bool,
    pub show_workspace_number: bool,
    pub show_trackpad_gesture: bool,
    pub placement_options: Seq<Text>,
    pub layout_position: usize,
    pub selected_placement: usize,
}

/// The in-memory state of the workspace settings page.
#[derive(Debug, PartialEq, Eq)]
pub struct Page {
    comp_workspace_config: WorkspaceConfig,
    show_workspace_name: bool,
    show_workspace_number: bool,
    show_trackpad_gesture: bool,
    workspace_thumbnail_placement_options: Vec<Text>,
    workspace_layout_position: usize,
    selected_workspace_thumbnail_placement: usize,
}

impl Message {
    /// A message is valid unless it chooses an index that the placement
    /// selector does not have.
    pub open spec fn valid_spec(self) -> bool {
        match self {
            Message::SetWorkspaceThumbnailPlacement(index) => index < 2,
            _ => true,
        }
    }

    #[verifier::when_used_as_spec(valid_spec)]
    pub fn valid(self) -> (valid: bool)
        ensures
            valid == self.valid_spec(),
    {
        match self {
            Message::SetWorkspaceThumbnailPlacement(index) => index < 2,
            _ => true,
        }
    }
}

impl Persist {
    /// The key that the write goes to.
    pub open spec fn key_spec(self) -> Option<ConfigKey> {
        match self {
            Persist::Nothing => None,
            Persist::Workspaces(_) => Some(ConfigKey::Workspaces),
            Persist::ShowWorkspaceName(_) => Some(ConfigKey::ShowWorkspaceName),
            Persist::ShowWorkspaceNumber(_) => Some(ConfigKey::ShowWorkspaceNumber),
        }
    }

    #[verifier::when_used_as_spec(key_spec)]
    pub fn key(self) -> (key: Option<ConfigKey>)
        ensures
            key == self.key_spec(),
    {
        match self {
            Persist::Nothing => None,
            Persist::Workspaces(_) => Some(ConfigKey::Workspaces),
            Persist::ShowWorkspaceName(_) => Some(ConfigKey::ShowWorkspaceName),
            Persist::ShowWorkspaceNumber(_) => Some(ConfigKey::ShowWorkspaceNumber),
        }
    }
}

/// The layout that an activated toggle entry stands for: the one it holds,
/// vertical where it holds none.
pub open spec fn resolved_layout(held: Option<WorkspaceLayout>) -> WorkspaceLayout {
    match held {
        Some(layout) => layout,
        None => WorkspaceLayout::Vertical,
    }
}

/// The keys whose failed read is to be reported, in the order of the reads.
pub open spec fn reported_keys(
    workspaces: Read<WorkspaceConfig>,
    show_name: Read<bool>,
    show_number: Read<bool>,
) -> Seq<ConfigKey> {
    let first = if workspaces.reported() {
        seq![ConfigKey::Workspaces]
    } else {
        Seq::empty()
    };
    let second = if show_name.reported() {
        first.push(ConfigKey::ShowWorkspaceName)
    } else {
        first
    };
    if show_number.reported() {
        second.push(ConfigKey::ShowWorkspaceNumber)
    } else {
        second
    }
}

impl PageView {
    /// The derived parts agree with the configuration: the options are the
    /// labels for the layout, the toggle stands at the layout's position, and
    /// the selected index is the placement's ordinal modulo two.
    pub open spec fn wf(self) -> bool {
        &&& self.placement_options == self.config.workspace_layout.placement_labels_spec()
        &&& self.layout_position == self.config.workspace_layout.position_spec()
        &&& self.selected_placement == self.config.workspace_thumbnail_placement.ordinal_spec() % 2
    }

    /// The state a page starts in for the values that were loaded.
    pub open spec fn initial(config: WorkspaceConfig, show_name: bool, show_number: bool) -> PageView {
        PageView {
            config,
            show_workspace_name: show_name,
            show_workspace_number: show_number,
            show_trackpad_gesture: false,
            placement_options: config.workspace_layout.placement_labels_spec(),
            layout_position: config.workspace_layout.position_spec(),
            selected_placement: (config.workspace_thumbnail_placement.ordinal_spec() % 2) as usize,
        }
    }

    /// The state after a message.
    pub open spec fn step(self, message: Message) -> PageView {
        match message {
            Message::SetWorkspaceMode(mode) => PageView {
                config: WorkspaceConfig { workspace_mode: mode, ..self.config },
                ..self
            },
            Message::SetWorkspaceLayout(held) => {
                let layout = resolved_layout(held);
                PageView {
                    config: WorkspaceConfig { workspace_layout: layout, ..self.config },
                    placement_options: layout.placement_labels_spec(),
                    layout_position: layout.position_spec(),
                    ..self
                }
            },
            Message::SetWorkspaceThumbnailPlacement(index) => PageView {
                config: WorkspaceConfig {
                    workspace_thumbnail_placement: self.config.workspace_layout.placement_spec(
                        index,
                    ),
                    ..self.config
                },
                selected_placement: index,
                ..self
            },
            Message::ShowTrackpadGestureInfo(shown) => PageView {
                show_trackpad_gesture: shown,
                ..self
            },
            Message::SetShowName(shown) => PageView { show_workspace_name: shown, ..self },
            Message::SetShowNumber(shown) => PageView { show_workspace_number: shown, ..self },
        }
    }

    /// What a message asks of the host.
    pub open spec fn effect(self, message: Message) -> Effect {
        match message {
            Message::SetWorkspaceMode(_) => Effect {
                persist: Persist::Workspaces(self.step(message).config),
                activate: None,
            },
            Message::SetWorkspaceLayout(_) => Effect {
                persist: Persist::Workspaces(self.step(message).config),
                activate: Some(self.step(message).layout_position),
            },
            Message::SetWorkspaceThumbnailPlacement(_) => Effect {
                persist: Persist::Nothing,
                activate: None,
            },
            Message::ShowTrackpadGestureInfo(_) => Effect {
                persist: Persist::Nothing,
                activate: None,
            },
            Message::SetShowName(shown) => Effect {
                persist: Persist::ShowWorkspaceName(shown),
                activate: None,
            },
            Message::SetShowNumber(shown) => Effect {
                persist: Persist::ShowWorkspaceNumber(shown),
                activate: None,
            },
        }
    }
}

impl View for Page {
    type V = PageView;

    closed spec fn view(&self) -> PageView {
        PageView {
            config: self.comp_workspace_config,
            show_workspace_name: self.show_workspace_name,
            show_workspace_number: self.show_workspace_number,
            show_trackpad_gesture: self.show_trackpad_gesture,
            placement_options: self.workspace_thumbnail_placement_options@,
            layout_position: self.workspace_layout_position,
            selected_placement: self.selected_workspace_thumbnail_placement,
        }
    }
}

impl Clone for Page {
    fn clone(&self) -> (copy: Page)
        ensures
            copy@ == self@,
    {
        proof {
            use_type_invariant(self);
        }
        Page {
            comp_workspace_config: self.comp_workspace_config,
            show_workspace_name: self.show_workspace_name,
            show_workspace_number: self.show_workspace_number,
            show_trackpad_gesture: self.show_trackpad_gesture,
            workspace_thumbnail_placement_options:
                self.comp_workspace_config.workspace_layout.placement_labels(),
            workspace_layout_position: self.workspace_layout_position,
            selected_workspace_thumbnail_placement: self.selected_workspace_thumbnail_placement,
        }
    }
}

impl Page {
    #[verifier::type_invariant]
    spec fn well_formed(&self) -> bool {
        self@.wf()
    }

    /// A page for the given configuration and flags, with the trackpad
    /// gestures folded away.
    pub fn new(config: WorkspaceConfig, show_name: bool, show_number: bool) -> (page: Page)
        ensures
            page@ == PageView::initial(config, show_name, show_number),
            page@.wf(),
    {
        Page {
            comp_workspace_config: config,
            show_workspace_name: show_name,
            show_workspace_number: show_number,
            show_trackpad_gesture: false,
            workspace_thumbnail_placement_options: config.workspace_layout.placement_labels(),
            workspace_layout_position: config.workspace_layout.position(),
            selected_workspace_thumbnail_placement: config.workspace_thumbnail_placement.ordinal()
                % 2,
        }
    }

    /// A page for what three reads from the store brought: the aggregate
    /// record, for which `fallback` stands in where none was found, and the
    /// two thumbnail flags, which are off where none was found. Beside the
    /// page come the keys whose read failed for another reason than a missing
    /// configuration directory, for the host to report.
    pub fn load(
        workspaces: Read<WorkspaceConfig>,
        fallback: WorkspaceConfig,
        show_name: Read<bool>,
        show_number: Read<bool>,
    ) -> (loaded: (Page, Vec<ConfigKey>))
        ensures
            loaded.0@ == PageView::initial(
                workspaces.value_or(fallback),
                show_name.value_or(false),
                show_number.value_or(false),
            ),
            loaded.0@.wf(),
            loaded.1@ == reported_keys(workspaces, show_name, show_number),
    {
        let mut failed: Vec<ConfigKey> = Vec::new();
        let (config, report) = workspaces.settle(fallback);
        if report {
            failed.push(ConfigKey::Workspaces);
        }
        let (name, report) = show_name.settle(false);
        if report {
            failed.push(ConfigKey::ShowWorkspaceName);
        }
        let (number, report) = show_number.settle(false);
        if report {
            failed.push(ConfigKey::ShowWorkspaceNumber);
        }
        (Page::new(config, name, number), failed)
    }

    /// The cached aggregate record.
    pub fn config(&self) -> (config: WorkspaceConfig)
        ensures
            config == self@.config,
            self@.wf(),
    {
        proof {
            use_type_invariant(self);
        }
        self.comp_workspace_config
    }

    pub fn show_workspace_name(&self) -> (shown: bool)
        ensures
            shown == self@.show_workspace_name,
    {
        self.show_workspace_name
    }

    pub fn show_workspace_number(&self) -> (shown: bool)
        ensures
            shown == self@.show_workspace_number,
    {
        self.show_workspace_number
    }

    /// Whether the trackpad gestures are unfolded. The flag is never stored.
    pub fn show_trackpad_gesture(&self) -> (shown: bool)
        ensures
            shown == self@.show_trackpad_gesture,
    {
        self.show_trackpad_gesture
    }

    /// The labels of the placement selector: always the two for the current
    /// layout.
    pub fn placement_options(&self) -> (options: &Vec<Text>)
        ensures
            options@ == self@.placement_options,
            options@ == self@.config.workspace_layout.placement_labels_spec(),
            self@.wf(),
    {
        proof {
            use_type_invariant(self);
        }
        &self.workspace_thumbnail_placement_options
    }

    /// The position at which the layout toggle stands: always that of the
    /// current layout.
    pub fn layout_position(&self) -> (position: usize)
        ensures
            position == self@.layout_position,
            position == self@.config.workspace_layout.position_spec(),
            self@.wf(),
    {
        proof {
            use_type_invariant(self);
        }
        self.workspace_layout_position
    }

    /// The index chosen in the placement selector: 0 or 1.
    pub fn selected_placement(&self) -> (index: usize)
        ensures
            index == self@.selected_placement,
            index < 2,
            self@.wf(),
    {
        proof {
            use_type_invariant(self);
        }
        self.selected_workspace_thumbnail_placement
    }

    /// Applies one message and says what the host has to do for it.
    pub fn update(&mut self, message: Message) -> (effect: Effect)
        requires
            message.valid_spec(),
        ensures
            final(self)@ == old(self)@.step(message),
            effect == old(self)@.effect(message),
            final(self)@.wf(),
    {
        proof {
            use_type_invariant(&*self);
        }
        match message {
            Message::SetWorkspaceMode(value) => {
                self.comp_workspace_config.workspace_mode = value;
                Effect { persist: Persist::Workspaces(self.comp_workspace_config), activate: None }
            },
            Message::SetWorkspaceLayout(held) => {
                let layout = match held {
                    Some(layout) => layout,
                    None => WorkspaceLayout::Vertical,
                };
                let position = layout.position();
                *self = Page {
                    comp_workspace_config: WorkspaceConfig {
                        workspace_mode: self.comp_workspace_config.workspace_mode,
                        workspace_layout: layout,
                        workspace_thumbnail_placement:
                            self.comp_workspace_config.workspace_thumbnail_placement,
                    },
                    show_workspace_name: self.show_workspace_name,
                    show_workspace_number: self.show_workspace_number,
                    show_trackpad_gesture: self.show_trackpad_gesture,
                    workspace_thumbnail_placement_options: layout.placement_labels(),
                    workspace_layout_position: position,
                    selected_workspace_thumbnail_placement:
                        self.selected_workspace_thumbnail_placement,
                };
                Effect {
                    persist: Persist::Workspaces(self.comp_workspace_config),
                    activate: Some(position),
                }
            },
            Message::SetWorkspaceThumbnailPlacement(value) => {
                let placement = self.comp_workspace_config.workspace_layout.placement(value);
                *self = Page {
                    comp_workspace_config: WorkspaceConfig {
                        workspace_mode: self.comp_workspace_config.workspace_mode,
                        workspace_layout: self.comp_workspace_config.workspace_layout,
                        workspace_thumbnail_placement: placement,
                    },
                    show_workspace_name: self.show_workspace_name,
                    show_workspace_number: self.show_workspace_number,
                    show_trackpad_gesture: self.show_trackpad_gesture,
                    workspace_thumbnail_placement_options:
                        self.comp_workspace_config.workspace_layout.placement_labels(),
                    workspace_layout_position: self.workspace_layout_position,
                    selected_workspace_thumbnail_placement: value,
                };
                Effect { persist: Persist::Nothing, activate: None }
            },
            Message::SetShowName(value) => {
                self.show_workspace_name = value;
                Effect { persist: Persist::ShowWorkspaceName(value), activate: None }
            },
            Message::SetShowNumber(value) => {
                self.show_workspace_number = value;
                Effect { persist: Persist::ShowWorkspaceNumber(value), activate: None }
            },
            Message::ShowTrackpadGestureInfo(value) => {
                self.show_trackpad_gesture = value;
                Effect { persist: Persist::Nothing, activate: None }
            },
        }
    }
}

/// Every valid message takes a well-formed state to a well-formed state.
pub proof fn law_step_keeps_wf(state: PageView, message: Message)
    requires
        state.wf(),
        message.valid_spec(),
    ensures
        state.step(message).wf(),
{
}

/// Switching the layout sets the options of the placement selector to the
/// labels of the two placements of the new layout, whatever the options were
/// before: each option names a placement that fits the new layout, and none
/// names one that does not. The placement and the selected index stay as
/// they were.
pub proof fn law_layout_switch_resets_options(state: PageView, held: Option<WorkspaceLayout>)
    ensures
        ({
            let layout = resolved_layout(held);
            let after = state.step(Message::SetWorkspaceLayout(held));
            &&& after.config.workspace_layout == layout
            &&& after.placement_options == layout.placement_labels_spec()
            &&& after.placement_options.len() == 2
            &&& forall|i: int|
                0 <= i < 2 ==> #[trigger] after.placement_options[i] == layout.placements()[i].label_spec()
            &&& forall|placement: WorkspaceThumbnailPlacement|
                after.placement_options.contains(#[trigger] placement.label_spec())
                    <==> placement.fits(layout)
            &&& after.layout_position == layout.position_spec()
            &&& after.config.workspace_thumbnail_placement
                == state.config.workspace_thumbnail_placement
            &&& after.selected_placement == state.selected_placement
        }),
{
    let layout = resolved_layout(held);
    let options = layout.placement_labels_spec();
    assert forall|placement: WorkspaceThumbnailPlacement|
        options.contains(#[trigger] placement.label_spec()) <==> placement.fits(layout) by {
        if placement.fits(layout) {
            let i: int = (placement.ordinal_spec() % 2) as int;
            assert(options[i] == placement.label_spec());
        }
    }
}

/// A page starts with the selected index at the stored placement's ordinal
/// modulo two. The placement that this index selects for the stored layout
/// is the stored placement exactly when the stored placement fits the layout.
pub proof fn law_initial_selection(config: WorkspaceConfig, show_name: bool, show_number: bool)
    ensures
        ({
            let state = PageView::initial(config, show_name, show_number);
            &&& state.wf()
            &&& state.config == config
            &&& state.selected_placement == config.workspace_thumbnail_placement.ordinal_spec() % 2
            &&& (config.workspace_layout.placement_spec(state.selected_placement)
                == config.workspace_thumbnail_placement
                <==> config.workspace_thumbnail_placement.fits(config.workspace_layout))
            &&& !state.show_trackpad_gesture
        }),
{
}

/// Choosing a placement changes the cached placement and the selected index
/// and nothing else, and asks for no write.
pub proof fn law_placement_is_not_persisted(state: PageView, index: usize)
    ensures
        ({
            let message = Message::SetWorkspaceThumbnailPlacement(index);
            &&& state.effect(message).persist == Persist::Nothing
            &&& state.effect(message).persist.key_spec() is None
            &&& state.effect(message).activate is None
            &&& state.step(message) == (PageView {
                config: WorkspaceConfig {
                    workspace_thumbnail_placement: state.config.workspace_layout.placement_spec(
                        index,
                    ),
                    ..state.config
                },
                selected_placement: index,
                ..state
            })
            &&& state.step(message).config.workspace_thumbnail_placement.fits(
                state.config.workspace_layout,
            )
        }),
{
}

/// Each message that changes a stored setting asks for exactly one write: to
/// the key of that setting, in the namespace of that key, with the value as
/// it is after the message.
pub proof fn law_durable_settings_are_persisted(state: PageView, message: Message)
    requires
        message is SetWorkspaceMode || message is SetWorkspaceLayout || message is SetShowName
            || message is SetShowNumber,
    ensures
        ({
            let after = state.step(message);
            let persist = state.effect(message).persist;
            match message {
                Message::SetWorkspaceMode(mode) => {
                    &&& after.config.workspace_mode == mode
                    &&& persist == Persist::Workspaces(after.config)
                    &&& persist.key_spec() == Some(ConfigKey::Workspaces)
                    &&& ConfigKey::Workspaces.namespace_spec() == Namespace::Compositor
                },
                Message::SetWorkspaceLayout(held) => {
                    &&& after.config.workspace_layout == resolved_layout(held)
                    &&& persist == Persist::Workspaces(after.config)
                    &&& persist.key_spec() == Some(ConfigKey::Workspaces)
                    &&& ConfigKey::Workspaces.namespace_spec() == Namespace::Compositor
                },
                Message::SetShowName(shown) => {
                    &&& after.show_workspace_name == shown
                    &&& persist == Persist::ShowWorkspaceName(shown)
                    &&& persist.key_spec() == Some(ConfigKey::ShowWorkspaceName)
                    &&& ConfigKey::ShowWorkspaceName.namespace_spec() == Namespace::Workspaces
                },
                Message::SetShowNumber(shown) => {
                    &&& after.show_workspace_number == shown
                    &&& persist == Persist::ShowWorkspaceNumber(shown)
                    &&& persist.key_spec() == Some(ConfigKey::ShowWorkspaceNumber)
                    &&& ConfigKey::ShowWorkspaceNumber.namespace_spec() == Namespace::Workspaces
                },
                _ => true,
            }
        }),
{
}

/// A write is asked for exactly by the four messages that change a stored
/// setting.
pub proof fn law_persist_iff_durable(state: PageView, message: Message)
    ensures
        state.effect(message).persist != Persist::Nothing <==> (message is SetWorkspaceMode
            || message is SetWorkspaceLayout || message is SetShowName
            || message is SetShowNumber),
{
}

/// Showing or hiding the trackpad gestures changes that one flag and asks
/// nothing of the host; doing it twice over, back to the value the flag had,
/// leaves the state as it was.
pub proof fn law_gesture_toggle(state: PageView, shown: bool)
    ensures
        ({
            let message = Message::ShowTrackpadGestureInfo(shown);
            &&& state.effect(message) == (Effect { persist: Persist::Nothing, activate: None })
            &&& state.step(message) == (PageView { show_trackpad_gesture: shown, ..state })
            &&& state.step(Message::ShowTrackpadGestureInfo(!state.show_trackpad_gesture)).step(
                Message::ShowTrackpadGestureInfo(state.show_trackpad_gesture),
            ) == state
        }),
{
}

} // verus!
