use workspace_settings::config::{
    WorkspaceConfig, WorkspaceLayout, WorkspaceMode, WorkspaceThumbnailPlacement,
};
use workspace_settings::page::{Effect, Message, Page, Persist};
use workspace_settings::store::{ConfigKey, Namespace, Read};
use workspace_settings::text::Text;

fn config(
    mode: WorkspaceMode,
    layout: WorkspaceLayout,
    placement: WorkspaceThumbnailPlacement,
) -> WorkspaceConfig {
    WorkspaceConfig {
        workspace_mode: mode,
        workspace_layout: layout,
        workspace_thumbnail_placement: placement,
    }
}

fn vertical_left() -> WorkspaceConfig {
    config(
        WorkspaceMode::OutputBound,
        WorkspaceLayout::Vertical,
        WorkspaceThumbnailPlacement::Left,
    )
}

const NOTHING: Effect = Effect {
    persist: Persist::Nothing,
    activate: None,
};

#[test]
fn a_new_page_mirrors_what_was_loaded() {
    let page = Page::new(vertical_left(), true, false);
    assert_eq!(page.config(), vertical_left());
    assert!(page.show_workspace_name());
    assert!(!page.show_workspace_number());
    assert!(!page.show_trackpad_gesture());
    assert_eq!(page.placement_options(), &vec![Text::Left, Text::Right]);
    assert_eq!(page.layout_position(), 0);
    assert_eq!(page.selected_placement(), 0);
}

#[test]
fn a_new_horizontal_page() {
    let page = Page::new(
        config(
            WorkspaceMode::Global,
            WorkspaceLayout::Horizontal,
            WorkspaceThumbnailPlacement::Bottom,
        ),
        false,
        true,
    );
    assert_eq!(page.placement_options(), &vec![Text::Top, Text::Bottom]);
    assert_eq!(page.layout_position(), 1);
    assert_eq!(page.selected_placement(), 1);
    assert!(!page.show_workspace_name());
    assert!(page.show_workspace_number());
}

#[test]
fn initial_selection_is_the_ordinal_modulo_two() {
    let placements = [
        (WorkspaceThumbnailPlacement::Top, 0usize),
        (WorkspaceThumbnailPlacement::Bottom, 1),
        (WorkspaceThumbnailPlacement::Left, 0),
        (WorkspaceThumbnailPlacement::Right, 1),
    ];
    for layout in [WorkspaceLayout::Horizontal, WorkspaceLayout::Vertical] {
        for (placement, index) in placements {
            let page = Page::new(config(WorkspaceMode::Global, layout, placement), false, false);
            assert_eq!(page.selected_placement(), index);
            assert_eq!(page.selected_placement(), placement.ordinal() % 2);
            assert_eq!(page.config().workspace_thumbnail_placement, placement);
        }
    }
}

#[test]
fn initial_selection_with_a_placement_that_does_not_fit() {
    // Right is stored with a horizontal layout: the index is 1, which for
    // this layout stands for Bottom, while the stored placement stays Right.
    let page = Page::new(
        config(
            WorkspaceMode::Global,
            WorkspaceLayout::Horizontal,
            WorkspaceThumbnailPlacement::Right,
        ),
        false,
        false,
    );
    assert_eq!(page.selected_placement(), 1);
    assert_eq!(
        page.config().workspace_layout.placement(page.selected_placement()),
        WorkspaceThumbnailPlacement::Bottom
    );
    assert_eq!(
        page.config().workspace_thumbnail_placement,
        WorkspaceThumbnailPlacement::Right
    );
    assert_eq!(page.placement_options(), &vec![Text::Top, Text::Bottom]);
}

#[test]
fn load_with_everything_found() {
    let stored = config(
        WorkspaceMode::Global,
        WorkspaceLayout::Horizontal,
        WorkspaceThumbnailPlacement::Top,
    );
    let (page, failed) = Page::load(
        Read::Found(stored),
        vertical_left(),
        Read::Found(true),
        Read::Found(true),
    );
    assert_eq!(page, Page::new(stored, true, true));
    assert!(failed.is_empty());
}

#[test]
fn load_on_a_first_run() {
    let (page, failed) = Page::load(
        Read::NoConfigDirectory,
        vertical_left(),
        Read::NoConfigDirectory,
        Read::NoConfigDirectory,
    );
    assert_eq!(page, Page::new(vertical_left(), false, false));
    assert!(failed.is_empty());
}

#[test]
fn load_reports_each_failed_read_in_order() {
    let (page, failed) = Page::load(Read::Failed, vertical_left(), Read::Failed, Read::Failed);
    assert_eq!(page, Page::new(vertical_left(), false, false));
    assert_eq!(
        failed,
        vec![
            ConfigKey::Workspaces,
            ConfigKey::ShowWorkspaceName,
            ConfigKey::ShowWorkspaceNumber
        ]
    );
}

#[test]
fn load_reports_only_the_failed_reads() {
    let stored = config(
        WorkspaceMode::Global,
        WorkspaceLayout::Horizontal,
        WorkspaceThumbnailPlacement::Bottom,
    );
    let (page, failed) = Page::load(
        Read::Found(stored),
        vertical_left(),
        Read::NoConfigDirectory,
        Read::Failed,
    );
    assert_eq!(page, Page::new(stored, false, false));
    assert_eq!(failed, vec![ConfigKey::ShowWorkspaceNumber]);

    let (page, failed) = Page::load(
        Read::Failed,
        stored,
        Read::Found(true),
        Read::NoConfigDirectory,
    );
    assert_eq!(page, Page::new(stored, true, false));
    assert_eq!(failed, vec![ConfigKey::Workspaces]);
}

#[test]
fn set_mode_writes_the_record() {
    let mut page = Page::new(vertical_left(), false, false);
    let effect = page.update(Message::SetWorkspaceMode(WorkspaceMode::Global));
    let expected = WorkspaceConfig {
        workspace_mode: WorkspaceMode::Global,
        ..vertical_left()
    };
    assert_eq!(page.config(), expected);
    assert_eq!(
        effect,
        Effect {
            persist: Persist::Workspaces(expected),
            activate: None
        }
    );
    assert_eq!(effect.persist.key(), Some(ConfigKey::Workspaces));
    assert_eq!(
        ConfigKey::Workspaces.namespace().name(),
        "com.system76.CosmicComp"
    );
    assert_eq!(page, Page::new(expected, false, false));
}

#[test]
fn set_layout_writes_the_record_and_moves_the_toggle() {
    let mut page = Page::new(vertical_left(), false, false);
    let effect = page.update(Message::SetWorkspaceLayout(Some(
        WorkspaceLayout::Horizontal,
    )));
    let expected = WorkspaceConfig {
        workspace_layout: WorkspaceLayout::Horizontal,
        ..vertical_left()
    };
    assert_eq!(page.config(), expected);
    assert_eq!(
        effect,
        Effect {
            persist: Persist::Workspaces(expected),
            activate: Some(1)
        }
    );
    assert_eq!(page.layout_position(), 1);
    assert_eq!(page.placement_options(), &vec![Text::Top, Text::Bottom]);
}

#[test]
fn switching_layout_resets_the_options() {
    let mut page = Page::new(vertical_left(), false, false);
    assert_eq!(page.placement_options(), &vec![Text::Left, Text::Right]);
    page.update(Message::SetWorkspaceLayout(Some(
        WorkspaceLayout::Horizontal,
    )));
    assert_eq!(page.placement_options(), &vec![Text::Top, Text::Bottom]);
    assert!(!page.placement_options().contains(&Text::Left));
    assert!(!page.placement_options().contains(&Text::Right));
    page.update(Message::SetWorkspaceLayout(Some(WorkspaceLayout::Vertical)));
    assert_eq!(page.placement_options(), &vec![Text::Left, Text::Right]);
    assert!(!page.placement_options().contains(&Text::Top));
    assert!(!page.placement_options().contains(&Text::Bottom));
    page.update(Message::SetWorkspaceLayout(Some(WorkspaceLayout::Vertical)));
    assert_eq!(page.placement_options(), &vec![Text::Left, Text::Right]);
}

#[test]
fn switching_layout_keeps_placement_and_selection() {
    let mut page = Page::new(
        config(
            WorkspaceMode::Global,
            WorkspaceLayout::Vertical,
            WorkspaceThumbnailPlacement::Right,
        ),
        false,
        false,
    );
    page.update(Message::SetWorkspaceLayout(Some(
        WorkspaceLayout::Horizontal,
    )));
    assert_eq!(
        page.config().workspace_thumbnail_placement,
        WorkspaceThumbnailPlacement::Right
    );
    assert_eq!(page.selected_placement(), 1);
    assert_eq!(
        page.selected_placement(),
        page.config().workspace_thumbnail_placement.ordinal() % 2
    );
}

#[test]
fn an_entry_without_a_layout_means_vertical() {
    let mut page = Page::new(
        config(
            WorkspaceMode::Global,
            WorkspaceLayout::Horizontal,
            WorkspaceThumbnailPlacement::Top,
        ),
        false,
        false,
    );
    let effect = page.update(Message::SetWorkspaceLayout(None));
    let expected = config(
        WorkspaceMode::Global,
        WorkspaceLayout::Vertical,
        WorkspaceThumbnailPlacement::Top,
    );
    assert_eq!(page.config(), expected);
    assert_eq!(
        effect,
        Effect {
            persist: Persist::Workspaces(expected),
            activate: Some(0)
        }
    );
    assert_eq!(page.placement_options(), &vec![Text::Left, Text::Right]);
    assert_eq!(page.layout_position(), 0);
}

#[test]
fn choosing_a_placement_is_not_written() {
    for layout in [WorkspaceLayout::Horizontal, WorkspaceLayout::Vertical] {
        for index in [0usize, 1] {
            let start = config(
                WorkspaceMode::Global,
                layout,
                WorkspaceThumbnailPlacement::Top,
            );
            let mut page = Page::new(start, true, true);
            let effect = page.update(Message::SetWorkspaceThumbnailPlacement(index));
            assert_eq!(effect, NOTHING);
            assert_eq!(effect.persist.key(), None);
            assert_eq!(page.selected_placement(), index);
            assert_eq!(
                page.config(),
                WorkspaceConfig {
                    workspace_thumbnail_placement: layout.placement(index),
                    ..start
                }
            );
            assert!(page.show_workspace_name());
            assert!(page.show_workspace_number());
            assert_eq!(page.layout_position(), layout.position());
        }
    }
}

#[test]
fn choosing_a_placement_by_layout() {
    let mut page = Page::new(vertical_left(), false, false);
    page.update(Message::SetWorkspaceThumbnailPlacement(1));
    assert_eq!(
        page.config().workspace_thumbnail_placement,
        WorkspaceThumbnailPlacement::Right
    );
    page.update(Message::SetWorkspaceThumbnailPlacement(0));
    assert_eq!(
        page.config().workspace_thumbnail_placement,
        WorkspaceThumbnailPlacement::Left
    );
    page.update(Message::SetWorkspaceLayout(Some(
        WorkspaceLayout::Horizontal,
    )));
    page.update(Message::SetWorkspaceThumbnailPlacement(0));
    assert_eq!(
        page.config().workspace_thumbnail_placement,
        WorkspaceThumbnailPlacement::Top
    );
    page.update(Message::SetWorkspaceThumbnailPlacement(1));
    assert_eq!(
        page.config().workspace_thumbnail_placement,
        WorkspaceThumbnailPlacement::Bottom
    );
}

#[test]
fn set_show_name_writes_the_flag() {
    let mut page = Page::new(vertical_left(), false, false);
    let effect = page.update(Message::SetShowName(true));
    assert_eq!(
        effect,
        Effect {
            persist: Persist::ShowWorkspaceName(true),
            activate: None
        }
    );
    assert_eq!(effect.persist.key(), Some(ConfigKey::ShowWorkspaceName));
    assert_eq!(
        ConfigKey::ShowWorkspaceName.namespace(),
        Namespace::Workspaces
    );
    assert_eq!(page, Page::new(vertical_left(), true, false));
    let effect = page.update(Message::SetShowName(false));
    assert_eq!(effect.persist, Persist::ShowWorkspaceName(false));
    assert_eq!(page, Page::new(vertical_left(), false, false));
}

#[test]
fn set_show_number_writes_the_flag() {
    let mut page = Page::new(vertical_left(), false, false);
    let effect = page.update(Message::SetShowNumber(true));
    assert_eq!(
        effect,
        Effect {
            persist: Persist::ShowWorkspaceNumber(true),
            activate: None
        }
    );
    assert_eq!(effect.persist.key(), Some(ConfigKey::ShowWorkspaceNumber));
    assert_eq!(page, Page::new(vertical_left(), false, true));
}

#[test]
fn gesture_info_is_never_written() {
    let mut page = Page::new(vertical_left(), true, false);
    let effect = page.update(Message::ShowTrackpadGestureInfo(true));
    assert_eq!(effect, NOTHING);
    assert!(page.show_trackpad_gesture());
    assert_eq!(page.config(), vertical_left());
    assert!(page.show_workspace_name());
    assert!(!page.show_workspace_number());
    assert_eq!(page.selected_placement(), 0);
    assert_eq!(page.layout_position(), 0);
    assert_eq!(page.placement_options(), &vec![Text::Left, Text::Right]);
}

#[test]
fn toggling_gesture_info_twice_restores_the_page() {
    let mut page = Page::new(vertical_left(), true, false);
    let before = page.clone();
    let shown = page.show_trackpad_gesture();
    assert_eq!(page.update(Message::ShowTrackpadGestureInfo(!shown)), NOTHING);
    assert_ne!(page, before);
    let shown = page.show_trackpad_gesture();
    assert_eq!(page.update(Message::ShowTrackpadGestureInfo(!shown)), NOTHING);
    assert_eq!(page, before);
}

#[test]
fn layout_then_placement_end_to_end() {
    let mut page = Page::new(vertical_left(), false, false);
    let first = page.update(Message::SetWorkspaceLayout(Some(
        WorkspaceLayout::Horizontal,
    )));
    assert_eq!(page.placement_options(), &vec![Text::Top, Text::Bottom]);
    assert_eq!(page.selected_placement(), 0);
    assert_eq!(
        page.selected_placement(),
        page.config().workspace_thumbnail_placement.ordinal() % 2
    );
    match first.persist {
        Persist::Workspaces(record) => {
            assert_eq!(record.workspace_layout, WorkspaceLayout::Horizontal)
        }
        other => panic!("the record was not written: {:?}", other),
    }
    let second = page.update(Message::SetWorkspaceThumbnailPlacement(1));
    assert_eq!(
        page.config().workspace_thumbnail_placement,
        WorkspaceThumbnailPlacement::Bottom
    );
    assert_eq!(second.persist, Persist::Nothing);
    assert_eq!(second.activate, None);
}

#[test]
fn only_the_two_selector_indices_are_valid() {
    assert!(Message::SetWorkspaceThumbnailPlacement(0).valid());
    assert!(Message::SetWorkspaceThumbnailPlacement(1).valid());
    assert!(!Message::SetWorkspaceThumbnailPlacement(2).valid());
    assert!(!Message::SetWorkspaceThumbnailPlacement(usize::MAX).valid());
    assert!(Message::SetWorkspaceMode(WorkspaceMode::Global).valid());
    assert!(Message::SetWorkspaceLayout(None).valid());
    assert!(Message::ShowTrackpadGestureInfo(true).valid());
    assert!(Message::SetShowName(false).valid());
    assert!(Message::SetShowNumber(true).valid());
}

#[test]
fn persist_keys() {
    assert_eq!(Persist::Nothing.key(), None);
    assert_eq!(
        Persist::Workspaces(vertical_left()).key(),
        Some(ConfigKey::Workspaces)
    );
    assert_eq!(
        Persist::ShowWorkspaceName(true).key(),
        Some(ConfigKey::ShowWorkspaceName)
    );
    assert_eq!(
        Persist::ShowWorkspaceNumber(false).key(),
        Some(ConfigKey::ShowWorkspaceNumber)
    );
}

#[test]
fn a_clone_is_equal() {
    let mut page = Page::new(vertical_left(), true, false);
    page.update(Message::SetWorkspaceLayout(Some(
        WorkspaceLayout::Horizontal,
    )));
    page.update(Message::ShowTrackpadGestureInfo(true));
    let copy = page.clone();
    assert_eq!(copy, page);
    assert_eq!(copy.placement_options(), &vec![Text::Top, Text::Bottom]);
}
