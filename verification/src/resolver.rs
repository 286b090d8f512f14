//! How a click picks the next value of a setting.
//!
//! A toggle goes to its other value. A selection goes to the option after
//! the current one and wraps round at the end; a current value that is no
//! option counts as the first option, so that the click lands on the second.

use crate::setting::{Command, CommandView, Setting, SettingId, SettingView, Value, ValueView};
use vstd::prelude::*;

verus! {

/// The index at which cycling starts: that of the first option equal to the
/// current value, and 0 when no option is.
pub open spec fn cycle_origin(options: Seq<Seq<char>>, value: Seq<char>) -> int {
    match options.index_of_first(value) {
        Some(index) => index,
        None => 0,
    }
}

/// The index of the option that cycling selects: one past the origin,
/// wrapping round at the end. There is none when there are no options.
pub open spec fn cycle_target(options: Seq<Seq<char>>, value: Seq<char>) -> Option<int> {
    if options.len() == 0 {
        None
    } else {
        Some((cycle_origin(options, value) + 1) % (options.len() as int))
    }
}

/// The write that a toggle click stands for: the negated value, for a
/// setting that reads as a toggle; nothing for any other reading.
pub open spec fn toggle_outcome(id: SettingId, reading: Option<SettingView>) -> Option<
    CommandView,
> {
    match reading {
        Some(SettingView::Toggle { value }) => Some(
            CommandView { id, value: ValueView::Bool(!value) },
        ),
        _ => None,
    }
}

/// The write that a cycle click stands for: the option after the current
/// one, for a setting that reads as a selection with at least one option;
/// nothing for any other reading.
pub open spec fn cycle_outcome(id: SettingId, reading: Option<SettingView>) -> Option<
    CommandView,
> {
    match reading {
        Some(SettingView::Select { options, value, .. }) => match cycle_target(options, value) {
            Some(index) => Some(CommandView { id, value: ValueView::Token(options[index]) }),
            None => None,
        },
        _ => None,
    }
}

/// What a setting reads once `value` has been written to it. A value of the
/// wrong kind leaves the setting as it was.
pub open spec fn written(setting: SettingView, value: ValueView) -> SettingView {
    match (setting, value) {
        (SettingView::Toggle { .. }, ValueView::Bool(flag)) => SettingView::Toggle { value: flag },
        (SettingView::Select { options, localized_options, .. }, ValueView::Token(token)) => {
            SettingView::Select { options, localized_options, value: token }
        },
        _ => setting,
    }
}

/// The next value of a boolean setting: the other one.
pub fn toggle_next(value: bool) -> (next: bool)
    ensures
        next == !value,
{
    !value
}

/// The first index in `options` whose text equals `value`.
pub fn position(options: &Vec<String>, value: &String) -> (found: Option<usize>)
    ensures
        (match found {
            Some(index) => {
                &&& options.deep_view().index_of_first(value@) == Some(index as int)
                &&& index < options.len()
                &&& options[index as int]@ == value@
                &&& forall|j: int| 0 <= j < index ==> options[j]@ != value@
            },
            None => {
                &&& options.deep_view().index_of_first(value@) is None
                &&& forall|j: int| 0 <= j < options.len() ==> options[j]@ != value@
            },
        }),
{
    let ghost texts = options.deep_view();
    let mut index: usize = 0;
    while index < options.len()
        invariant
            index <= options.len(),
            texts == options.deep_view(),
            forall|j: int| 0 <= j < index ==> texts[j] != value@,
        decreases options.len() - index,
    {
        if options[index] == *value {
            proof {
                first_index_is_unique(texts, value@, index as int);
                assert forall|j: int| 0 <= j < index implies options[j]@ != value@ by {
                    assert(texts[j] != value@);
                }
            }
            return Some(index);
        }
        index += 1;
    }
    proof {
        texts.index_of_first_ensures(value@);
        assert forall|j: int| 0 <= j < options.len() implies options[j]@ != value@ by {
            assert(texts[j] != value@);
        }
    }
    None
}

/// The index of the option that follows the current value; none when there
/// are no options to choose from.
pub fn cycle_next(options: &Vec<String>, value: &String) -> (next: Option<usize>)
    ensures
        (match next {
            Some(index) => cycle_target(options.deep_view(), value@) == Some(index as int),
            None => cycle_target(options.deep_view(), value@) is None,
        }),
        next is None <==> options.len() == 0,
        next matches Some(index) ==> index < options.len(),
{
    if options.len() == 0 {
        return None;
    }
    let origin: usize = match position(options, value) {
        Some(index) => index,
        None => 0,
    };
    Some((origin + 1) % options.len())
}

/// Resolves a toggle click against what the device reported for `id`.
pub fn toggle_command(id: SettingId, reading: Option<&Setting>) -> (command: Option<Command>)
    ensures
        command.deep_view() == toggle_outcome(id, reading.deep_view()),
{
    match reading {
        Some(Setting::Toggle { value }) => Some(
            Command { id, value: Value::Bool(toggle_next(*value)) },
        ),
        _ => None,
    }
}

/// Resolves a cycle click against what the device reported for `id`.
pub fn cycle_command(id: SettingId, reading: Option<&Setting>) -> (command: Option<Command>)
    ensures
        command.deep_view() == cycle_outcome(id, reading.deep_view()),
        (reading matches Some(Setting::Select { options, .. }) && options.len() == 0)
            ==> command is None,
{
    match reading {
        Some(Setting::Select { options, value, .. }) => match cycle_next(options, value) {
            Some(index) => Some(Command { id, value: Value::Token(options[index].clone()) }),
            None => None,
        },
        _ => None,
    }
}

/// An index that holds `needle` and has no `needle` before it is the first
/// index of `needle`.
pub proof fn first_index_is_unique<T>(s: Seq<T>, needle: T, index: int)
    requires
        0 <= index < s.len(),
        s[index] == needle,
        forall|j: int| 0 <= j < index ==> s[j] != needle,
    ensures
        s.index_of_first(needle) == Some(index),
{
    s.index_of_first_ensures(needle);
    assert(s.contains(needle));
}

/// Two toggle clicks in a row, the first written before the second is
/// resolved, leave the setting at the value it had.
pub proof fn toggle_twice_restores(id: SettingId, value: bool)
    ensures
        ({
            let before = SettingView::Toggle { value };
            &&& toggle_outcome(id, Some(before)) matches Some(first)
            &&& toggle_outcome(id, Some(written(before, first.value))) matches Some(second)
            &&& second.value == ValueView::Bool(value)
            &&& written(written(before, first.value), second.value) == before
        }),
{
}

/// Two toggle clicks that are both resolved before either is written ask
/// for the same write: whichever lands last, the setting ends at the negated
/// value and not at the one it had before.
pub proof fn racing_toggles_agree(id: SettingId, value: bool)
    ensures
        ({
            let before = SettingView::Toggle { value };
            &&& toggle_outcome(id, Some(before)) matches Some(write)
            &&& written(written(before, write.value), write.value) == written(before, write.value)
            &&& written(before, write.value) == SettingView::Toggle { value: !value }
        }),
{
}

/// Cycling from the option at `index` selects the option at
/// `(index + 1) mod n`, so from the last option it wraps round to the first.
/// The option at `index` must not stand at an earlier index too: cycling
/// starts from the first place where the current value stands.
pub proof fn cycle_steps_to_successor(options: Seq<Seq<char>>, index: int)
    requires
        0 <= index < options.len(),
        forall|j: int| 0 <= j < index ==> options[j] != options[index],
    ensures
        cycle_target(options, options[index]) == Some((index + 1) % (options.len() as int)),
        index < options.len() - 1 ==> cycle_target(options, options[index]) == Some(index + 1),
        index == options.len() - 1 ==> cycle_target(options, options[index]) == Some(0int),
{
    first_index_is_unique(options, options[index], index);
    let n: int = options.len() as int;
    if index == n - 1 {
        assert((index + 1) % n == 0) by (nonlinear_arith)
            requires
                index + 1 == n,
                n > 0,
        ;
    } else {
        assert((index + 1) % n == index + 1) by (nonlinear_arith)
            requires
                0 <= index + 1 < n,
        ;
    }
}

/// A current value that is no option is treated as if it were the first
/// option: cycling selects index `1 mod n`, the second option where there is
/// one, and not the first.
pub proof fn cycle_from_unlisted_value(options: Seq<Seq<char>>, value: Seq<char>)
    requires
        !options.contains(value),
    ensures
        cycle_target(options, value) == cycle_target(options, options[0]),
        options.len() > 0 ==> cycle_target(options, value) == Some(
            1int % (options.len() as int),
        ),
        options.len() > 1 ==> cycle_target(options, value) == Some(1int),
{
    let n: int = options.len() as int;
    if n > 0 {
        options.index_of_first_ensures(value);
        first_index_is_unique(options, options[0], 0);
    }
    if n > 1 {
        assert(1int % n == 1) by (nonlinear_arith)
            requires
                n > 1,
        ;
    }
}

/// Without options there is nothing to cycle to, whatever the current value
/// and whatever labels the setting carries.
pub proof fn cycle_on_no_options_is_nothing(
    id: SettingId,
    localized_options: Seq<Seq<char>>,
    value: Seq<char>,
)
    ensures
        cycle_target(Seq::empty(), value) is None,
        cycle_outcome(
            id,
            Some(SettingView::Select { options: Seq::empty(), localized_options, value }),
        ) is None,
{
}

} // verus!
