//! What the screen shows: the title, the window of visible rows, each row's
//! text and emphasis, and the confirmation prompt. Drawing itself happens
//! outside the library; this module decides the content.

use ratatui::layout::{Constraint, Direction, Layout, Rect};
use std::path::PathBuf;
use vstd::prelude::*;
use vstd::string::*;

use crate::app::{App, Mode};
use crate::branch::BranchInfo;
use crate::git::GitOperations;
use crate::text::{decimal, push_decimal};

verus! {

/// The colour a piece of text is drawn in.
pub enum Tint {
    Plain,
    /// Worktree notes.
    Cyan,
    /// Warnings about unmerged branches.
    Yellow,
}

/// A piece of a row.
pub struct Span {
    pub text: String,
    pub tint: Tint,
}

/// One row of the branch list.
pub struct RowView {
    pub spans: Vec<Span>,
    /// The row is HEAD: drawn green and dimmed.
    pub is_head: bool,
    /// The row is under the cursor: drawn reversed.
    pub is_cursor: bool,
}

/// The role of a line of the confirmation prompt, which decides its style.
pub enum PromptLine {
    /// Bold heading.
    Title,
    Blank,
    /// Yellow header over the branches to force-delete.
    ForceHeader,
    /// Cyan header over the branches whose worktree is removed.
    WorktreeHeader,
    /// One branch.
    Item,
    /// Bold question.
    Question,
}

/// A screen rectangle.
pub struct Area {
    pub x: u16,
    pub y: u16,
    pub width: u16,
    pub height: u16,
}

/// The text of a path as the screen shows it: `Path::display`, which is lossy
/// for paths that are not UTF-8.
pub uninterp spec fn path_text(p: PathBuf) -> Seq<char>;

/// `inner` lies inside `outer`.
pub open spec fn area_within(inner: Area, outer: Area) -> bool {
    &&& outer.x <= inner.x
    &&& inner.x + inner.width <= outer.x + outer.width
    &&& outer.y <= inner.y
    &&& inner.y + inner.height <= outer.y + outer.height
}

/// `Path::display` from std, as a `String`; named by `path_text`.
#[verifier::external_body]
fn path_string(p: &PathBuf) -> (s: String)
    ensures
        s@ == path_text(*p),
{
    p.display().to_string()
}

/// The middle part that ratatui's layout solver gives when `area` is split in
/// the given direction (`true` for vertical) into three `Percentage` parts
/// `side`, `middle`, `side`. `Layout::split` depends on the area and the
/// constraints alone (its per-thread cache only remembers earlier answers).
pub uninterp spec fn layout_middle_of(vertical: bool, side: u16, middle: u16, area: Area) -> Area;

/// `Layout::split` from ratatui with three `Constraint::Percentage` parts
/// (`side`, `middle`, `side`) in the given direction; the middle part is
/// returned, named by `layout_middle_of`. Every boundary is held inside the
/// area by a required constraint, so the part lies inside `area`, and it keeps
/// the area's extent across the split direction.
#[verifier::external_body]
fn layout_middle(vertical: bool, side: u16, middle: u16, area: Area) -> (r: Area)
    ensures
        r == layout_middle_of(vertical, side, middle, area),
        area_within(r, area),
        vertical ==> r.x == area.x && r.width == area.width,
        !vertical ==> r.y == area.y && r.height == area.height,
{
    let direction = if vertical { Direction::Vertical } else { Direction::Horizontal };
    let parts = Layout::default().direction(direction).constraints([
        Constraint::Percentage(side),
        Constraint::Percentage(middle),
        Constraint::Percentage(side),
    ]).split(Rect { x: area.x, y: area.y, width: area.width, height: area.height });
    Area { x: parts[1].x, y: parts[1].y, width: parts[1].width, height: parts[1].height }
}

/// The three percentages that center a part of `percent` in a split: equal
/// sides around the middle.
pub fn centered_split(percent: u16) -> (parts: (u16, u16))
    requires
        percent <= 100,
    ensures
        parts.0 == (100 - percent) / 2,
        parts.1 == percent,
{
    ((100 - percent) / 2, percent)
}

/// The band of `r` that holds the centered rectangle: `r` split vertically
/// around `percent_y` of its height.
pub open spec fn centered_band(percent_y: u16, r: Area) -> Area {
    layout_middle_of(true, ((100 - percent_y) / 2) as u16, percent_y, r)
}

/// The rectangle `percent_x` × `percent_y` centered in `r`: the band of `r`
/// split horizontally around `percent_x` of its width.
pub open spec fn centered_area(percent_x: u16, percent_y: u16, r: Area) -> Area {
    layout_middle_of(false, ((100 - percent_x) / 2) as u16, percent_x, centered_band(percent_y, r))
}

/// A rectangle `percent_x` × `percent_y` of `r`, centered, as ratatui's layout
/// solver places it: first `r` is split vertically around `percent_y` of its
/// height, then the middle band horizontally around `percent_x` of its width.
/// It lies inside the band, which lies inside `r`.
pub fn centered_rect(percent_x: u16, percent_y: u16, r: Area) -> (c: Area)
    requires
        percent_x <= 100,
        percent_y <= 100,
    ensures
        c == centered_area(percent_x, percent_y, r),
        area_within(c, centered_band(percent_y, r)),
        area_within(centered_band(percent_y, r), r),
        area_within(c, r),
{
    let (side_y, middle_y) = centered_split(percent_y);
    let band = layout_middle(true, side_y, middle_y, r);
    let (side_x, middle_x) = centered_split(percent_x);
    layout_middle(false, side_x, middle_x, band)
}

/// The title bar: the tool's name and the cursor's position in the list.
pub open spec fn title_text(cursor: usize, total: nat) -> Seq<char> {
    " git-branch-manager   "@ + decimal(if total == 0 { 0 } else { (cursor + 1) as nat }) + "/"@ + decimal(total)
}

/// The marker columns of a row: the cursor, HEAD, and the selection box.
pub open spec fn row_marker(is_cursor: bool, is_head: bool, selected: bool) -> Seq<char> {
    (if is_cursor { ">"@ } else { " "@ }) + " "@ + (if is_head { "*"@ } else { " "@ }) + " "@ + (if selected {
        "[x]"@
    } else {
        "[ ]"@
    }) + " "@
}

/// The line of the prompt that lists a branch.
pub open spec fn item_text(name: Seq<char>) -> Seq<char> {
    "  • "@ + name
}

/// The line of the prompt that lists a branch together with its worktree.
pub open spec fn worktree_item_text(b: BranchInfo) -> Seq<char> {
    "  • "@ + b.name@ + "  (wt: "@ + (match b.worktree {
        Some(p) => path_text(p),
        None => Seq::empty(),
    }) + ")"@
}

/// The lines of the prompt for a pending delete of `force` and `worktree`.
pub open spec fn prompt_lines(branches: Seq<BranchInfo>, force: Seq<usize>, worktree: Seq<usize>) -> Seq<(Seq<char>, PromptLine)> {
    seq![("Confirm deletion"@, PromptLine::Title)] + (if force.len() > 0 {
        seq![(""@, PromptLine::Blank), ("These are NOT fully merged — force delete (-D):"@, PromptLine::ForceHeader)]
            + force.map_values(|i: usize| (item_text(branches[i as int].name@), PromptLine::Item))
    } else {
        Seq::empty()
    }) + (if worktree.len() > 0 {
        seq![(""@, PromptLine::Blank), ("These have a worktree that will be REMOVED, then the branch deleted:"@, PromptLine::WorktreeHeader)]
            + worktree.map_values(|i: usize| (worktree_item_text(branches[i as int]), PromptLine::Item))
    } else {
        Seq::empty()
    }) + seq![(""@, PromptLine::Blank), ("Proceed?  [y] yes   [n/Esc] cancel"@, PromptLine::Question)]
}


/// The views of a list of prompt lines.
pub open spec fn line_views(lines: Seq<(String, PromptLine)>) -> Seq<(Seq<char>, PromptLine)> {
    lines.map_values(|l: (String, PromptLine)| (l.0@, l.1))
}

fn literal_line(text: &str, kind: PromptLine) -> (l: (String, PromptLine))
    ensures
        l.0@ == text@,
        l.1 == kind,
{
    (String::from_str(text), kind)
}

impl<G: GitOperations> App<G> {
    /// The title bar: ` git-branch-manager   {position}/{total}`, the position
    /// counting from 1 (0 on an empty list).
    pub fn title(&self) -> (s: String)
        requires
            self.branches.len() > 0 ==> self.cursor < usize::MAX,
        ensures
            s@ == title_text(self.cursor, self.branches.len() as nat),
    {
        let total = self.branches.len();
        let pos = if total == 0 { 0 } else { self.cursor + 1 };
        let mut s = String::from_str(" git-branch-manager   ");
        push_decimal(&mut s, pos);
        s.append("/");
        push_decimal(&mut s, total);
        s
    }

    /// Fits the scroll offset to a list area `area_height` rows tall (two of
    /// them are its border) and returns the rows to draw, `start..end`.
    pub fn visible_rows(&mut self, area_height: u16) -> (rows: (usize, usize))
        ensures
            final(self).offset == crate::app::clamped_offset(
                old(self).cursor as int,
                old(self).offset as int,
                old(self).branches.len() as int,
                if area_height >= 2 { area_height - 2 } else { 0 },
            ),
            rows.0 == final(self).offset,
            rows.1 == if final(self).offset + (if area_height >= 2 { area_height - 2 } else { 0 })
                < old(self).branches.len() {
                final(self).offset + (if area_height >= 2 { area_height - 2 } else { 0 })
            } else {
                old(self).branches.len() as int
            },
            final(self).same_flow(*old(self)),
            final(self).status == old(self).status,
            final(self).branches == old(self).branches,
            final(self).selected == old(self).selected,
            final(self).cursor == old(self).cursor,
    {
        let view_height = area_height.saturating_sub(2) as usize;
        self.clamp_offset_to_cursor(view_height);
        let len = self.branches.len();
        let end = if self.offset >= len || len - self.offset <= view_height {
            len
        } else {
            self.offset + view_height
        };
        (self.offset, end)
    }

    /// Row `i` of the list: the markers, the name, the worktree note, and the
    /// warning for unmerged branches, with the row's emphasis.
    pub fn row(&self, i: usize) -> (r: RowView)
        requires
            i < self.branches.len(),
            i < self.selected.len(),
        ensures
            r.is_cursor == (i == self.cursor),
            r.is_head == self.branches@[i as int].is_head,
            r.spans@.len() == 2 + (if self.branches@[i as int].worktree is Some { 1int } else { 0 }) + (if !self.branches@[i as int].is_merged && !self.branches@[i as int].is_head { 1int } else { 0 }),
            r.spans@[0].text@ == row_marker(i == self.cursor, self.branches@[i as int].is_head, self.selected@[i as int]),
            r.spans@[0].tint == Tint::Plain,
            r.spans@[1].text@ == self.branches@[i as int].name@,
            r.spans@[1].tint == Tint::Plain,
            self.branches@[i as int].worktree matches Some(p) ==> {
                &&& r.spans@[2].text@ == "  (wt: "@ + path_text(p) + ")"@
                &&& r.spans@[2].tint == Tint::Cyan
            },
            !self.branches@[i as int].is_merged && !self.branches@[i as int].is_head ==> {
                &&& r.spans@[r.spans@.len() - 1].text@ == "  (unmerged — needs force)"@
                &&& r.spans@[r.spans@.len() - 1].tint == Tint::Yellow
            },
    {
        let b = &self.branches[i];
        let is_cursor = i == self.cursor;
        let mut marker = String::from_str(if is_cursor { ">" } else { " " });
        marker.append(" ");
        marker.append(if b.is_head { "*" } else { " " });
        marker.append(" ");
        marker.append(if self.selected[i] { "[x]" } else { "[ ]" });
        marker.append(" ");
        let mut spans: Vec<Span> = Vec::new();
        spans.push(Span { text: marker, tint: Tint::Plain });
        spans.push(Span { text: b.name.clone(), tint: Tint::Plain });
        if let Some(path) = &b.worktree {
            let mut note = String::from_str("  (wt: ");
            let shown = path_string(path);
            note.append(shown.as_str());
            note.append(")");
            spans.push(Span { text: note, tint: Tint::Cyan });
        }
        if !b.is_merged && !b.is_head {
            spans.push(Span { text: String::from_str("  (unmerged — needs force)"), tint: Tint::Yellow });
        }
        RowView { spans, is_head: b.is_head, is_cursor }
    }

    /// The lines of the confirmation prompt: the branches to force-delete, the
    /// branches whose worktree is removed first, and the question. Outside the
    /// prompt there are none.
    pub fn prompt(&self) -> (lines: Vec<(String, PromptLine)>)
        requires
            self.pending_ok(),
        ensures
            self.mode matches Mode::Confirm(p) ==> line_views(lines@) == prompt_lines(
                self.branches@,
                p.force@,
                p.worktree@,
            ),
            self.mode == Mode::Browsing ==> lines@.len() == 0,
    {
        let pending = match &self.mode {
            Mode::Confirm(p) => p,
            Mode::Browsing => return Vec::new(),
        };
        let mut lines: Vec<(String, PromptLine)> = Vec::new();
        lines.push(literal_line("Confirm deletion", PromptLine::Title));
        let ghost head = line_views(lines@);
        assert(head =~= seq![("Confirm deletion"@, PromptLine::Title)]);
        if pending.force.len() > 0 {
            lines.push(literal_line("", PromptLine::Blank));
            lines.push(literal_line("These are NOT fully merged — force delete (-D):", PromptLine::ForceHeader));
            let ghost start = line_views(lines@);
            assert(start =~= head + seq![(""@, PromptLine::Blank), ("These are NOT fully merged — force delete (-D):"@, PromptLine::ForceHeader)]);
            let mut k: usize = 0;
            while k < pending.force.len()
                invariant
                    k <= pending.force.len(),
                    forall|m: int| 0 <= m < pending.force.len() ==> #[trigger] pending.force@[m] < self.branches.len(),
                    line_views(lines@) == start + pending.force@.take(k as int).map_values(
                        |i: usize| (item_text(self.branches@[i as int].name@), PromptLine::Item),
                    ),
                decreases pending.force.len() - k,
            {
                let i = pending.force[k];
                let mut text = String::from_str("  • ");
                text.append(self.branches[i].name.as_str());
                let ghost before = lines@;
                let ghost tv = text@;
                lines.push((text, PromptLine::Item));
                assert(line_views(lines@) =~= line_views(before).push((tv, PromptLine::Item)));
                assert(pending.force@.take(k + 1) =~= pending.force@.take(k as int).push(i));
                assert(pending.force@.take(k + 1).map_values(
                    |i: usize| (item_text(self.branches@[i as int].name@), PromptLine::Item),
                ) =~= pending.force@.take(k as int).map_values(
                    |i: usize| (item_text(self.branches@[i as int].name@), PromptLine::Item),
                ).push((item_text(self.branches@[i as int].name@), PromptLine::Item)));
                k = k + 1;
            }
            assert(pending.force@.take(pending.force.len() as int) =~= pending.force@);
        }
        let ghost middle = line_views(lines@);
        assert(middle == head + (if pending.force@.len() > 0 {
            seq![(""@, PromptLine::Blank), ("These are NOT fully merged — force delete (-D):"@, PromptLine::ForceHeader)]
                + pending.force@.map_values(|i: usize| (item_text(self.branches@[i as int].name@), PromptLine::Item))
        } else {
            Seq::empty()
        }));
        if pending.worktree.len() > 0 {
            lines.push(literal_line("", PromptLine::Blank));
            lines.push(
                literal_line(
                    "These have a worktree that will be REMOVED, then the branch deleted:",
                    PromptLine::WorktreeHeader,
                ),
            );
            let ghost start = line_views(lines@);
            assert(start =~= middle + seq![(""@, PromptLine::Blank), ("These have a worktree that will be REMOVED, then the branch deleted:"@, PromptLine::WorktreeHeader)]);
            let mut k: usize = 0;
            while k < pending.worktree.len()
                invariant
                    k <= pending.worktree.len(),
                    forall|m: int| 0 <= m < pending.worktree.len() ==> #[trigger] pending.worktree@[m] < self.branches.len(),
                    line_views(lines@) == start + pending.worktree@.take(k as int).map_values(
                        |i: usize| (worktree_item_text(self.branches@[i as int]), PromptLine::Item),
                    ),
                decreases pending.worktree.len() - k,
            {
                let i = pending.worktree[k];
                let b = &self.branches[i];
                let mut text = String::from_str("  • ");
                text.append(b.name.as_str());
                text.append("  (wt: ");
                if let Some(path) = &b.worktree {
                    let shown = path_string(path);
                    text.append(shown.as_str());
                }
                text.append(")");
                let ghost before = lines@;
                let ghost tv = text@;
                lines.push((text, PromptLine::Item));
                assert(tv == worktree_item_text(self.branches@[i as int]));
                assert(line_views(lines@) =~= line_views(before).push((tv, PromptLine::Item)));
                assert(pending.worktree@.take(k + 1) =~= pending.worktree@.take(k as int).push(i));
                assert(pending.worktree@.take(k + 1).map_values(
                    |i: usize| (worktree_item_text(self.branches@[i as int]), PromptLine::Item),
                ) =~= pending.worktree@.take(k as int).map_values(
                    |i: usize| (worktree_item_text(self.branches@[i as int]), PromptLine::Item),
                ).push((worktree_item_text(self.branches@[i as int]), PromptLine::Item)));
                k = k + 1;
            }
            assert(pending.worktree@.take(pending.worktree.len() as int) =~= pending.worktree@);
        }
        let ghost tail = line_views(lines@);
        assert(tail == middle + (if pending.worktree@.len() > 0 {
            seq![(""@, PromptLine::Blank), ("These have a worktree that will be REMOVED, then the branch deleted:"@, PromptLine::WorktreeHeader)]
                + pending.worktree@.map_values(|i: usize| (worktree_item_text(self.branches@[i as int]), PromptLine::Item))
        } else {
            Seq::empty()
        }));
        lines.push(literal_line("", PromptLine::Blank));
        lines.push(literal_line("Proceed?  [y] yes   [n/Esc] cancel", PromptLine::Question));
        assert(line_views(lines@) =~= tail + seq![(""@, PromptLine::Blank), ("Proceed?  [y] yes   [n/Esc] cancel"@, PromptLine::Question)]);
        lines
    }
}

} // verus!
