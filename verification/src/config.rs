//! The workspace configuration record, its three enumerations, and the rules
//! that tie a thumbnail placement to a layout.

use crate::text::Text;
use vstd::prelude::*;

verus! {

/// Whether workspaces span every display or belong to one display each.
#[derive(Clone, Copy, Debug, PartialEq, Eq, Structural)]
pub enum WorkspaceMode {
    OutputBound,
    Global,
}

/// The axis along which the workspace switcher is laid out.
#[derive(Clone, Copy, Debug, PartialEq, Eq, Structural)]
pub enum WorkspaceLayout {
    Vertical,
    Horizontal,
}

/// The screen edge at which workspace thumbnails are shown.
#[derive(Clone, Copy, Debug, PartialEq, Eq, Structural)]
pub enum WorkspaceThumbnailPlacement {
    Top,
    Bottom,
    Left,
    Right,
}

/// The aggregate record stored under the key `workspaces`.
#[derive(Clone, Copy, Debug, PartialEq, Eq, Structural)]
pub struct WorkspaceConfig {
    pub workspace_mode: WorkspaceMode,
    pub workspace_layout: WorkspaceLayout,
    pub workspace_thumbnail_placement: WorkspaceThumbnailPlacement,
}

impl WorkspaceThumbnailPlacement {
    /// The position of the variant in the declaration: `Top` is 0, `Right` is 3.
    pub open spec fn ordinal_spec(self) -> nat {
        match self {
            WorkspaceThumbnailPlacement::Top => 0,
            WorkspaceThumbnailPlacement::Bottom => 1,
            WorkspaceThumbnailPlacement::Left => 2,
            WorkspaceThumbnailPlacement::Right => 3,
        }
    }

    /// A placement fits a layout when it names an edge across the layout's
    /// axis: top or bottom for a horizontal layout, left or right for a
    /// vertical one.
    pub open spec fn fits(self, layout: WorkspaceLayout) -> bool {
        match layout {
            WorkspaceLayout::Horizontal => self == WorkspaceThumbnailPlacement::Top || self
                == WorkspaceThumbnailPlacement::Bottom,
            WorkspaceLayout::Vertical => self == WorkspaceThumbnailPlacement::Left || self
                == WorkspaceThumbnailPlacement::Right,
        }
    }

    /// The text that names the placement in the placement selector.
    pub open spec fn label_spec(self) -> Text {
        match self {
            WorkspaceThumbnailPlacement::Top => Text::Top,
            WorkspaceThumbnailPlacement::Bottom => Text::Bottom,
            WorkspaceThumbnailPlacement::Left => Text::Left,
            WorkspaceThumbnailPlacement::Right => Text::Right,
        }
    }

    #[verifier::when_used_as_spec(label_spec)]
    pub fn label(self) -> (label: Text)
        ensures
            label == self.label_spec(),
    {
        match self {
            WorkspaceThumbnailPlacement::Top => Text::Top,
            WorkspaceThumbnailPlacement::Bottom => Text::Bottom,
            WorkspaceThumbnailPlacement::Left => Text::Left,
            WorkspaceThumbnailPlacement::Right => Text::Right,
        }
    }

    pub fn ordinal(self) -> (n: usize)
        ensures
            n == self.ordinal_spec(),
    {
        match self {
            WorkspaceThumbnailPlacement::Top => 0,
            WorkspaceThumbnailPlacement::Bottom => 1,
            WorkspaceThumbnailPlacement::Left => 2,
            WorkspaceThumbnailPlacement::Right => 3,
        }
    }
}

impl WorkspaceLayout {
    /// The two placements offered for a layout, in the order of the placement
    /// selector.
    pub open spec fn placements(self) -> Seq<WorkspaceThumbnailPlacement> {
        match self {
            WorkspaceLayout::Horizontal => seq![
                WorkspaceThumbnailPlacement::Top,
                WorkspaceThumbnailPlacement::Bottom,
            ],
            WorkspaceLayout::Vertical => seq![
                WorkspaceThumbnailPlacement::Left,
                WorkspaceThumbnailPlacement::Right,
            ],
        }
    }

    /// The placement that a selector index stands for: index 0 is the first
    /// placement of the layout, any other index the second.
    pub open spec fn placement_spec(self, index: usize) -> WorkspaceThumbnailPlacement {
        if index == 0 {
            self.placements()[0]
        } else {
            self.placements()[1]
        }
    }

    /// The labels of the placement selector for a layout: the labels of its
    /// two placements, in order.
    pub open spec fn placement_labels_spec(self) -> Seq<Text> {
        match self {
            WorkspaceLayout::Horizontal => seq![Text::Top, Text::Bottom],
            WorkspaceLayout::Vertical => seq![Text::Left, Text::Right],
        }
    }

    /// The text that names the layout in the layout toggle.
    pub open spec fn label_spec(self) -> Text {
        match self {
            WorkspaceLayout::Vertical => Text::Vertical,
            WorkspaceLayout::Horizontal => Text::Horizontal,
        }
    }

    /// The layout at a position of the layout toggle, if the toggle has one
    /// there.
    pub open spec fn at_position_spec(position: usize) -> Option<WorkspaceLayout> {
        if position == 0 {
            Some(WorkspaceLayout::Vertical)
        } else if position == 1 {
            Some(WorkspaceLayout::Horizontal)
        } else {
            None
        }
    }

    /// Where the layout sits in the layout toggle: vertical first.
    pub open spec fn position_spec(self) -> usize {
        match self {
            WorkspaceLayout::Vertical => 0,
            WorkspaceLayout::Horizontal => 1,
        }
    }

    #[verifier::when_used_as_spec(placement_spec)]
    pub fn placement(self, index: usize) -> (placement: WorkspaceThumbnailPlacement)
        ensures
            placement == self.placement_spec(index),
            placement.fits(self),
            index < 2 ==> placement == self.placements()[index as int],
    {
        match self {
            WorkspaceLayout::Horizontal => {
                if index == 0 {
                    WorkspaceThumbnailPlacement::Top
                } else {
                    WorkspaceThumbnailPlacement::Bottom
                }
            },
            WorkspaceLayout::Vertical => {
                if index == 0 {
                    WorkspaceThumbnailPlacement::Left
                } else {
                    WorkspaceThumbnailPlacement::Right
                }
            },
        }
    }

    pub fn placement_labels(self) -> (labels: Vec<Text>)
        ensures
            labels@ == self.placement_labels_spec(),
    {
        let mut labels: Vec<Text> = Vec::new();
        match self {
            WorkspaceLayout::Horizontal => {
                labels.push(Text::Top);
                labels.push(Text::Bottom);
            },
            WorkspaceLayout::Vertical => {
                labels.push(Text::Left);
                labels.push(Text::Right);
            },
        }
        labels
    }

    #[verifier::when_used_as_spec(label_spec)]
    pub fn label(self) -> (label: Text)
        ensures
            label == self.label_spec(),
    {
        match self {
            WorkspaceLayout::Vertical => Text::Vertical,
            WorkspaceLayout::Horizontal => Text::Horizontal,
        }
    }

    /// The entries of the layout toggle, in order.
    pub fn entries() -> (entries: Vec<WorkspaceLayout>)
        ensures
            entries@ == seq![WorkspaceLayout::Vertical, WorkspaceLayout::Horizontal],
            forall|i: int|
                0 <= i < entries@.len() ==> (#[trigger] entries@[i]).position_spec() == i,
    {
        let mut entries: Vec<WorkspaceLayout> = Vec::new();
        entries.push(WorkspaceLayout::Vertical);
        entries.push(WorkspaceLayout::Horizontal);
        entries
    }

    #[verifier::when_used_as_spec(at_position_spec)]
    pub fn at_position(position: usize) -> (layout: Option<WorkspaceLayout>)
        ensures
            layout == WorkspaceLayout::at_position_spec(position),
    {
        if position == 0 {
            Some(WorkspaceLayout::Vertical)
        } else if position == 1 {
            Some(WorkspaceLayout::Horizontal)
        } else {
            None
        }
    }

    #[verifier::when_used_as_spec(position_spec)]
    pub fn position(self) -> (position: usize)
        ensures
            position == self.position_spec(),
    {
        match self {
            WorkspaceLayout::Vertical => 0,
            WorkspaceLayout::Horizontal => 1,
        }
    }
}

/// Every placement that an index selects for a layout fits that layout, and
/// the two indices of the selector select the layout's two placements.
pub proof fn law_selected_placement_fits(layout: WorkspaceLayout, index: usize)
    ensures
        layout.placement_spec(index).fits(layout),
        index < 2 ==> layout.placement_spec(index) == layout.placements()[index as int],
        layout.placement_spec(0) != layout.placement_spec(1),
{
}

/// A placement fits a layout exactly when it is one of the layout's two
/// placements.
pub proof fn law_fits_is_membership(layout: WorkspaceLayout, placement: WorkspaceThumbnailPlacement)
    ensures
        placement.fits(layout) <==> layout.placements().contains(placement),
        layout.placements().len() == 2,
{
    if placement.fits(layout) {
        let i: int = (placement.ordinal_spec() % 2) as int;
        assert(layout.placements()[i] == placement);
    }
}

/// The selector shows, at each index, the label of the placement that the
/// index selects.
pub proof fn law_labels_name_placements(layout: WorkspaceLayout, index: usize)
    requires
        index < 2,
    ensures
        layout.placement_labels_spec().len() == 2,
        layout.placement_labels_spec()[index as int] == layout.placement_spec(index).label_spec(),
{
}

/// Selecting by a placement's ordinal modulo two gives the placement back
/// exactly when the placement fits the layout.
pub proof fn law_ordinal_parity(layout: WorkspaceLayout, placement: WorkspaceThumbnailPlacement)
    ensures
        placement.ordinal_spec() % 2 < 2,
        layout.placement_spec((placement.ordinal_spec() % 2) as usize) == placement
            <==> placement.fits(layout),
{
}

/// An index of the selector is the ordinal modulo two of the placement it
/// selects.
pub proof fn law_index_is_parity(layout: WorkspaceLayout, index: usize)
    requires
        index < 2,
    ensures
        layout.placement_spec(index).ordinal_spec() % 2 == index,
{
}

/// The layout toggle holds each layout at its own position and nothing else.
pub proof fn law_positions(layout: WorkspaceLayout, position: usize)
    ensures
        WorkspaceLayout::at_position_spec(layout.position_spec()) == Some(layout),
        WorkspaceLayout::at_position_spec(position) == Some(layout) <==> position
            == layout.position_spec(),
{
}

} // verus!
