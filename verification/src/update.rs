//! How a widget is brought up to date with a value of the application's
//! model. Each plan compares what the widget shows with the value and says
//! which setters to call; a widget that already shows the value is left
//! alone, so that updating on every tick costs nothing and does not disturb
//! the user.
use vstd::prelude::*;
use crate::text::{count_lines, line_count, menu_items, menu_text};

verus! {

/// What a text widget must do to show a value.
#[derive(Clone, Copy, Debug, PartialEq, Eq, Structural)]
pub struct TextPlan {
    /// Give the widget a fresh, empty text buffer first.
    pub install_buffer: bool,
    /// Replace the buffer's text with the value.
    pub set_text: bool,
}

/// Text shown by a widget whose buffer holds `buffer`; a widget without a
/// buffer shows nothing.
pub open spec fn shown(buffer: Option<Seq<char>>) -> Seq<char> {
    match buffer {
        Some(t) => t,
        None => Seq::empty(),
    }
}

/// View of an optional string.
pub open spec fn opt_view(o: Option<String>) -> Option<Seq<char>> {
    match o {
        Some(s) => Some(s@),
        None => None,
    }
}

/// Plan for a read-only text display.
pub open spec fn display_plan(buffer: Option<Seq<char>>, value: Seq<char>) -> TextPlan {
    TextPlan { install_buffer: buffer is None, set_text: shown(buffer) != value }
}

/// Plan for an editor; one that has the keyboard focus is never touched,
/// so that the user's typing is not overwritten.
pub open spec fn editor_plan(focused: bool, buffer: Option<Seq<char>>, value: Seq<char>) -> TextPlan {
    if focused {
        TextPlan { install_buffer: false, set_text: false }
    } else {
        display_plan(buffer, value)
    }
}

/// Buffer of a text widget after `plan` was carried out for `value`.
pub open spec fn after_text(buffer: Option<Seq<char>>, value: Seq<char>, plan: TextPlan) -> Option<
    Seq<char>,
> {
    if plan.set_text {
        Some(value)
    } else if plan.install_buffer {
        Some(Seq::empty())
    } else {
        buffer
    }
}

/// One update with a value makes a display show it, and a second update
/// with the same value changes nothing.
pub proof fn display_update_settles(buffer: Option<Seq<char>>, value: Seq<char>)
    ensures
        shown(after_text(buffer, value, display_plan(buffer, value))) == value,
        display_plan(after_text(buffer, value, display_plan(buffer, value)), value) == (TextPlan {
            install_buffer: false,
            set_text: false,
        }),
{
}

/// An editor without focus settles as a display does; one with the focus
/// keeps its buffer, whatever the value.
pub proof fn editor_update_settles(focused: bool, buffer: Option<Seq<char>>, value: Seq<char>)
    ensures
        !focused ==> shown(after_text(buffer, value, editor_plan(focused, buffer, value))) == value,
        !focused ==> editor_plan(
            focused,
            after_text(buffer, value, editor_plan(focused, buffer, value)),
            value,
        ) == (TextPlan { install_buffer: false, set_text: false }),
        focused ==> after_text(buffer, value, editor_plan(focused, buffer, value)) == buffer,
{
}

fn shown_differs(buffer: &Option<String>, value: &String) -> (r: bool)
    ensures
        r == (shown(opt_view(*buffer)) != value@),
{
    match buffer {
        Some(t) => !(*t == *value),
        None => {
            assert(value@.len() == 0 ==> value@ =~= Seq::<char>::empty());
            !value.as_str().is_empty()
        },
    }
}

/// `TextDisplay`'s update with `value`, its buffer holding `buffer`.
pub fn plan_text_display(buffer: &Option<String>, value: &String) -> (p: TextPlan)
    ensures
        p == display_plan(opt_view(*buffer), value@),
{
    TextPlan { install_buffer: buffer.is_none(), set_text: shown_differs(buffer, value) }
}

/// `TextEditor`'s update with `value`, its buffer holding `buffer`.
pub fn plan_text_editor(focused: bool, buffer: &Option<String>, value: &String) -> (p: TextPlan)
    ensures
        p == editor_plan(focused, opt_view(*buffer), value@),
{
    if focused {
        TextPlan { install_buffer: false, set_text: false }
    } else {
        plan_text_display(buffer, value)
    }
}

/// Line to scroll a display to after it took `text`: its number of lines.
pub fn scroll_line(text: &str) -> (r: i32)
    ensures
        r == line_count(text@) as i32,
{
    let n = count_lines(text);
    n as i32
}

/// Whether an input field showing `current` takes `value`: only when it has
/// no focus and shows something else.
pub fn plan_input(focused: bool, current: &String, value: &String) -> (set: bool)
    ensures
        set == (!focused && current@ != value@),
{
    !focused && !(*current == *value)
}

/// Whether a single-line entry takes the value: only when it does not show
/// the focus.
pub fn plan_entry(has_visible_focus: bool) -> (set: bool)
    ensures
        set == !has_visible_focus,
{
    !has_visible_focus
}

/// What a choice must do to its list of items.
#[derive(Debug)]
pub struct ChoiceItems {
    /// Remove all items.
    pub clear: bool,
    /// Then add the items of this menu string.
    pub add: Option<String>,
}

/// A choice with `size` items takes `items`: when their number differs it
/// is cleared and, unless `items` is empty, refilled with all of them.
pub fn plan_choice_items(size: i32, items: &Vec<String>) -> (p: ChoiceItems)
    ensures
        p.clear == (size != items@.len() as i32),
        p.add is Some == (p.clear && items@.len() > 0),
        p.add matches Some(m) ==> m@ == menu_text(items@.map_values(|v: String| v@)),
{
    let n = items.len() as i32;
    if size != n {
        if items.len() > 0 {
            ChoiceItems { clear: true, add: Some(menu_items(items)) }
        } else {
            ChoiceItems { clear: true, add: None }
        }
    } else {
        ChoiceItems { clear: false, add: None }
    }
}

/// New selected index of a choice that selects `current` and must select
/// `wanted`, when they differ.
pub fn plan_index(current: i32, wanted: i32) -> (r: Option<i32>)
    ensures
        r == (if current != wanted {
            Some(wanted)
        } else {
            None::<i32>
        }),
{
    if current != wanted {
        Some(wanted)
    } else {
        None
    }
}

/// Whether a choice that holds `size` items is active: only if it has any.
pub fn choice_active(size: i32) -> (active: bool)
    ensures
        active == (size > 0),
{
    size > 0
}

/// New activation state of a widget that is `active` and must be `wanted`,
/// when they differ.
pub fn plan_activation(active: bool, wanted: bool) -> (r: Option<bool>)
    ensures
        r == (if active != wanted {
            Some(wanted)
        } else {
            None::<bool>
        }),
{
    if active != wanted {
        Some(wanted)
    } else {
        None
    }
}

/// What a frame must do to take a tooltip and a label size.
#[derive(Debug)]
pub struct FramePlan {
    /// The tooltip differs; its callback is run.
    pub tooltip_changed: bool,
    /// Tooltip to set; a tooltip that goes away is not cleared.
    pub tooltip: Option<String>,
    /// Label size to set; its callback is run.
    pub label_size: Option<i32>,
}

/// Number of times a frame's callback runs under `plan`.
pub open spec fn callbacks(plan: FramePlan) -> nat {
    (if plan.tooltip_changed {
        1nat
    } else {
        0nat
    }) + (if plan.label_size is Some {
        1nat
    } else {
        0nat
    })
}

/// Number of times the callback of a frame with `tooltip` and `label_size`
/// runs when it takes `wanted_tooltip` and `wanted_size`: once for a tooltip
/// that differs, once for a label size that differs.
pub open spec fn frame_callbacks(
    tooltip: Option<Seq<char>>,
    label_size: i32,
    wanted_tooltip: Option<Seq<char>>,
    wanted_size: i32,
) -> nat {
    (if tooltip != wanted_tooltip {
        1nat
    } else {
        0nat
    }) + (if label_size != wanted_size {
        1nat
    } else {
        0nat
    })
}

/// Tooltip of a frame with `tooltip` after it took `wanted`: a tooltip
/// that goes away is not cleared.
pub open spec fn tooltip_after(tooltip: Option<Seq<char>>, wanted: Option<Seq<char>>) -> Option<
    Seq<char>,
> {
    if tooltip != wanted && wanted is Some {
        wanted
    } else {
        tooltip
    }
}

/// A frame update settles: updating again with the same tooltip and label
/// size runs the callback no more, unless the update takes a tooltip away.
pub proof fn frame_update_settles(
    tooltip: Option<Seq<char>>,
    label_size: i32,
    wanted_tooltip: Option<Seq<char>>,
    wanted_size: i32,
)
    requires
        wanted_tooltip is Some || tooltip is None,
    ensures
        frame_callbacks(tooltip_after(tooltip, wanted_tooltip), wanted_size, wanted_tooltip, wanted_size)
            == 0,
{
}

/// A tooltip that goes away stays on the frame, so every further update
/// without a tooltip runs the callback once more.
pub proof fn vanishing_tooltip_keeps_calling_back(tooltip: Seq<char>, wanted_size: i32)
    ensures
        frame_callbacks(tooltip_after(Some(tooltip), None), wanted_size, None, wanted_size) == 1,
{
}

/// A frame with `tooltip` and `label_size` takes `wanted_tooltip` and
/// `wanted_size`.
pub fn plan_frame(
    tooltip: &Option<String>,
    label_size: i32,
    wanted_tooltip: Option<String>,
    wanted_size: i32,
) -> (p: FramePlan)
    ensures
        p.tooltip_changed == (opt_view(*tooltip) != opt_view(wanted_tooltip)),
        p.tooltip == (if p.tooltip_changed {
            wanted_tooltip
        } else {
            None::<String>
        }),
        p.label_size == (if label_size != wanted_size {
            Some(wanted_size)
        } else {
            None::<i32>
        }),
        callbacks(p) == frame_callbacks(
            opt_view(*tooltip),
            label_size,
            opt_view(wanted_tooltip),
            wanted_size,
        ),
{
    let changed = match (tooltip, &wanted_tooltip) {
        (Some(a), Some(b)) => !(*a == *b),
        (None, None) => false,
        _ => true,
    };
    let size = if label_size != wanted_size {
        Some(wanted_size)
    } else {
        None
    };
    if changed {
        FramePlan { tooltip_changed: true, tooltip: wanted_tooltip, label_size: size }
    } else {
        FramePlan { tooltip_changed: false, tooltip: None, label_size: size }
    }
}

} // verus!
