use crate::text::{is_blank, str_is_blank};
use vstd::prelude::*;

verus! {

/// The texts that a list of borrowed names holds, in order.
pub open spec fn texts(names: Seq<&str>) -> Seq<Seq<char>> {
    Seq::new(names.len(), |i: int| names[i]@)
}

/// A device list after one name was offered to it: a blank name changes nothing, a name
/// that the list holds already changes nothing, any other name goes to the end.
pub open spec fn with_name(devices: Option<Seq<Seq<char>>>, name: Seq<char>) -> Option<
    Seq<Seq<char>>,
> {
    if is_blank(name) {
        devices
    } else {
        match devices {
            None => Some(seq![name]),
            Some(list) => if list.contains(name) {
                Some(list)
            } else {
                Some(list.push(name))
            },
        }
    }
}

/// A device list after each of `names` was offered to it, first to last.
pub open spec fn with_names(devices: Option<Seq<Seq<char>>>, names: Seq<Seq<char>>) -> Option<
    Seq<Seq<char>>,
>
    decreases names.len(),
{
    if names.len() == 0 {
        devices
    } else {
        with_name(with_names(devices, names.drop_last()), names.last())
    }
}

/// A name that is blank, or that the list holds already, leaves the list as it is: same
/// names, same order, same length.
pub proof fn lemma_known_name_changes_nothing(list: Seq<Seq<char>>, name: Seq<char>)
    requires
        is_blank(name) || list.contains(name),
    ensures
        with_name(Some(list), name) == Some(list),
{
}

/// Names of which each is blank or held by the list already leave the list as it is,
/// however many they are and in whatever order they come.
pub proof fn lemma_known_names_change_nothing(list: Seq<Seq<char>>, names: Seq<Seq<char>>)
    requires
        forall|i: int| 0 <= i < names.len() ==> is_blank(#[trigger] names[i]) || list.contains(names[i]),
    ensures
        with_names(Some(list), names) == Some(list),
    decreases names.len(),
{
    if names.len() > 0 {
        lemma_known_names_change_nothing(list, names.drop_last());
    }
}

/// Offering names never removes or moves one: a list that was set is still set, and
/// what it held stands at its start, in the same order.
pub proof fn lemma_names_stay_in_front(list: Seq<Seq<char>>, names: Seq<Seq<char>>)
    ensures
        with_names(Some(list), names) is Some,
        list.is_prefix_of(with_names(Some(list), names)->0),
    decreases names.len(),
{
    if names.len() > 0 {
        lemma_names_stay_in_front(list, names.drop_last());
        let before = with_names(Some(list), names.drop_last())->0;
        let after = with_name(Some(before), names.last())->0;
        assert(before.is_prefix_of(after));
    }
}

/// Offering names brings in no name twice: a list in which every name stood once is
/// still such a list afterwards.
pub proof fn lemma_names_stay_distinct(devices: Option<Seq<Seq<char>>>, names: Seq<Seq<char>>)
    requires
        devices matches Some(list) ==> list.no_duplicates(),
    ensures
        with_names(devices, names) matches Some(list) ==> list.no_duplicates(),
    decreases names.len(),
{
    if names.len() > 0 {
        lemma_names_stay_distinct(devices, names.drop_last());
        let before = with_names(devices, names.drop_last());
        let name = names.last();
        if !is_blank(name) {
            match before {
                None => {
                    assert(seq![name].no_duplicates());
                },
                Some(list) => {
                    if !list.contains(name) {
                        let after = list.push(name);
                        assert forall|i: int, j: int|
                            0 <= i < after.len() && 0 <= j < after.len() && i != j implies after[i]
                            != after[j] by {
                            if i < list.len() && j < list.len() {
                                assert(list[i] != list[j]);
                            } else if i < list.len() {
                                assert(list.contains(list[i]));
                            } else {
                                assert(list.contains(list[j]));
                            }
                        }
                    }
                },
            }
        }
    }
}

/// Every name that is offered and is not blank is held afterwards.
pub proof fn lemma_offered_names_are_held(
    devices: Option<Seq<Seq<char>>>,
    names: Seq<Seq<char>>,
    i: int,
)
    requires
        0 <= i < names.len(),
        !is_blank(names[i]),
    ensures
        with_names(devices, names) is Some,
        with_names(devices, names)->0.contains(names[i]),
    decreases names.len(),
{
    let before = with_names(devices, names.drop_last());
    let name = names.last();
    if i == names.len() - 1 {
        match before {
            None => {
                assert(seq![name][0] == name);
            },
            Some(list) => {
                if !list.contains(name) {
                    assert(list.push(name)[list.len() as int] == name);
                }
            },
        }
    } else {
        lemma_offered_names_are_held(devices, names.drop_last(), i);
        let list = before->0;
        let k = choose|k: int| 0 <= k < list.len() && list[k] == names[i];
        if !is_blank(name) && !list.contains(name) {
            assert(list.push(name)[k] == names[i]);
        }
    }
}

/// Owned copies of `names`, in order.
pub(crate) fn owned_names(names: &Vec<&str>) -> (list: Vec<String>)
    ensures
        list.deep_view() == texts(names@),
{
    let mut list: Vec<String> = Vec::new();
    let mut i: usize = 0;
    while i < names.len()
        invariant
            0 <= i <= names.len(),
            list.len() == i,
            forall|k: int| 0 <= k < i ==> (#[trigger] list[k])@ == names[k]@,
        decreases names.len() - i,
    {
        list.push(names[i].to_owned());
        i = i + 1;
    }
    assert(list.deep_view() =~= texts(names@));
    list
}

/// Whether `list` holds `name`.
pub(crate) fn holds_name(list: &Vec<String>, name: &str) -> (found: bool)
    ensures
        found == list.deep_view().contains(name@),
{
    let wanted: String = name.to_owned();
    let mut i: usize = 0;
    while i < list.len()
        invariant
            0 <= i <= list.len(),
            wanted@ == name@,
            forall|k: int| 0 <= k < i ==> (#[trigger] list[k])@ != name@,
        decreases list.len() - i,
    {
        if list[i] == wanted {
            assert(list.deep_view()[i as int] == name@);
            return true;
        }
        i = i + 1;
    }
    assert(forall|k: int| 0 <= k < list.len() ==> #[trigger] list.deep_view()[k] == list[k]@);
    false
}

/// Offers one name to a device list.
pub(crate) fn offer_name(devices: Option<Vec<String>>, name: &str) -> (out: Option<Vec<String>>)
    ensures
        out.deep_view() == with_name(devices.deep_view(), name@),
{
    if str_is_blank(name) {
        return devices;
    }
    match devices {
        None => {
            let mut list: Vec<String> = Vec::new();
            list.push(name.to_owned());
            assert(list.deep_view() =~= seq![name@]);
            Some(list)
        },
        Some(mut list) => {
            if holds_name(&list, name) {
                Some(list)
            } else {
                let ghost before = list.deep_view();
                list.push(name.to_owned());
                assert(list.deep_view() =~= before.push(name@));
                Some(list)
            }
        },
    }
}

/// Offers each of `names` to a device list, first to last.
pub(crate) fn offer_names(devices: Option<Vec<String>>, names: &Vec<&str>) -> (out: Option<
    Vec<String>,
>)
    ensures
        out.deep_view() == with_names(devices.deep_view(), texts(names@)),
{
    let ghost start = devices.deep_view();
    let mut out = devices;
    let mut i: usize = 0;
    while i < names.len()
        invariant
            0 <= i <= names.len(),
            out.deep_view() == with_names(start, texts(names@).take(i as int)),
        decreases names.len() - i,
    {
        proof {
            let next = texts(names@).take(i + 1);
            assert(next.drop_last() =~= texts(names@).take(i as int));
            assert(next.last() == names[i as int]@);
        }
        out = offer_name(out, names[i]);
        i = i + 1;
    }
    assert(texts(names@).take(i as int) =~= texts(names@));
    out
}

} // verus!
