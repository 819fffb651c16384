//! What the steps of a path do, and where a project begins.

use vstd::prelude::*;

use crate::cli::{counts_as_marker, hints_at_root, marks_root, MarkerFacts, Markers};
use crate::path_utils::{
    file_name, is_component_list, is_under, law_rendered_path_has_its_components, link_end,
    normalized, path_joined, rendered, short_name,
};
use crate::shape::root::kind_pointer;
use crate::text::has_suffix;

verus! {

/// A step to `.` stays, a step into a directory and up again leads back, and a
/// step up from the root stays at the root.
pub proof fn law_steps_up_lead_back(list: Seq<Seq<char>>, name: Seq<char>)
    requires
        name != "."@,
        name != ".."@,
        name != "/"@,
    ensures
        normalized(list.push("."@)) == normalized(list),
        normalized(list.push(name).push(".."@)) == normalized(list),
        normalized(list.push(name)) == normalized(list).push(name),
        normalized(seq!["/"@, ".."@]) == seq!["/"@],
        normalized(seq!["/"@]) == seq!["/"@],
{
    reveal_strlit(".");
    reveal_strlit("..");
    reveal_strlit("/");
    assert("."@.len() == 1 && ".."@.len() == 2 && "/"@.len() == 1 && "."@[0] == '.' && "/"@[0]
        == '/');
    let dot = list.push("."@);
    assert(dot.drop_last() =~= list && dot.last() == "."@);
    let into = list.push(name);
    assert(into.drop_last() =~= list && into.last() == name);
    let back = into.push(".."@);
    assert(back.drop_last() =~= into && back.last() == ".."@);
    assert(normalized(into).drop_last() =~= normalized(list));
    assert(normalized(into).last() == name);
    let root = seq!["/"@];
    assert(root.drop_last() =~= Seq::<Seq<char>>::empty());
    assert(normalized(Seq::<Seq<char>>::empty()) == Seq::<Seq<char>>::empty());
    assert(root.last() == "/"@);
    assert(normalized(root) =~= root);
    let up = seq!["/"@, ".."@];
    assert(up.drop_last() =~= root && up.last() == ".."@);
}

/// A path is called by its last component, unless that is no name.
pub proof fn law_paths_are_called_by_their_last_component(list: Seq<Seq<char>>, name: Seq<char>)
    requires
        is_component_list(list.push(name)),
        name != "."@,
        name != ".."@,
        name != "/"@,
    ensures
        file_name(rendered(list.push(name))) == Some(name),
        short_name(rendered(list.push(name))) == name,
        is_component_list(list.push(".."@)) ==> file_name(rendered(list.push(".."@))) is None,
{
    law_rendered_path_has_its_components(list.push(name));
    assert(list.push(name).last() == name);
    if is_component_list(list.push(".."@)) {
        law_rendered_path_has_its_components(list.push(".."@));
        assert(list.push(".."@).last() == ".."@);
    }
}

/// A path lies under a directory exactly where its components begin with those of
/// the directory.
pub proof fn law_paths_lie_under_their_directories(
    base: Seq<Seq<char>>,
    rest: Seq<Seq<char>>,
    other: Seq<Seq<char>>,
)
    requires
        is_component_list(base),
        is_component_list(base + rest),
        is_component_list(other),
    ensures
        is_under(rendered(base + rest), rendered(base)),
        is_under(rendered(other), rendered(base)) == (base.len() <= other.len() && forall|i: int|
            0 <= i < base.len() ==> #[trigger] other[i] == base[i]),
{
    law_rendered_path_has_its_components(base);
    law_rendered_path_has_its_components(base + rest);
    law_rendered_path_has_its_components(other);
    assert((base + rest).take(base.len() as int) =~= base);
    if base.len() <= other.len() {
        if other.take(base.len() as int) == base {
            assert forall|i: int| 0 <= i < base.len() implies #[trigger] other[i] == base[i] by {
                assert(other.take(base.len() as int)[i] == other[i]);
            }
        }
        if forall|i: int| 0 <= i < base.len() ==> #[trigger] other[i] == base[i] {
            assert(other.take(base.len() as int) =~= base);
        }
    }
}

/// An absolute target of a link or a join counts by itself.
pub proof fn law_absolute_targets_count_by_themselves(
    link: Seq<char>,
    rest: Seq<char>,
    current_dir: Option<Seq<char>>,
)
    ensures
        link_end(link, "/"@ + rest, current_dir) == Some("/"@ + rest),
        path_joined(link, "/"@ + rest) == "/"@ + rest,
{
    reveal_strlit("/");
    assert(("/"@ + rest)[0] == '/');
}

/// A directory is the root of a project by its manifest or its host file, and may
/// be one by its workflow parameters, its connections or its parameters.
pub proof fn law_roots_are_told_by_their_files(markers: Markers)
    ensures
        marks_root(markers) == !(!markers.manifest && !markers.host),
        hints_at_root(markers) == !(!markers.workflow_parameters && !markers.connections
            && !markers.parameters),
{
}

/// A marker counts where it is a file, and never where it lies outside.
pub proof fn law_markers_outside_do_not_count(facts: MarkerFacts)
    ensures
        facts.escapes ==> !counts_as_marker(facts),
        !facts.is_file ==> !counts_as_marker(facts),
        facts.is_file && !facts.escapes && facts.root is None ==> counts_as_marker(facts),
        facts.is_file && !facts.escapes && facts.place is None ==> counts_as_marker(facts),
        facts.is_file && !facts.escapes && facts.root is Some && facts.place is Some
            ==> counts_as_marker(facts) == is_under(
            (facts.place->Some_0)@,
            (facts.root->Some_0)@,
        ),
{
}

/// The kind of a workflow stands beside its definition.
pub proof fn law_kinds_stand_beside_definitions(base: Seq<char>)
    ensures
        kind_pointer("/definition"@) == "/kind"@,
        kind_pointer(base + "/properties/definition"@) == base + "/kind"@,
        kind_pointer(Seq::empty()) == "/kind"@,
{
    reveal_strlit("/definition");
    reveal_strlit("/properties/definition");
    reveal_strlit("/kind");
    reveal_strlit("kind");
    reveal_strlit("/");
    let whole = base + "/properties/definition"@;
    let n = whole.len() - "/properties/definition"@.len();
    assert(whole.take(n) =~= base);
    assert(whole.subrange(n, whole.len() as int) =~= "/properties/definition"@);
    assert(has_suffix(whole, "/properties/definition"@));
    assert("/definition"@.len() == 11 && "/properties/definition"@.len() == 22);
    crate::text_laws::lemma_escaped_word("kind"@);
    assert(base + "/"@ + "kind"@ =~= base + "/kind"@);
    assert(Seq::<char>::empty() + "/"@ + "kind"@ =~= "/kind"@);
    let nothing = Seq::<char>::empty();
    assert(!has_suffix(nothing, "/properties/definition"@));
}

} // verus!
