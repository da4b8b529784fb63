//! Parameter tuples and ignore-lists.
//!
//! A mocked function's parameters are taken here as a sequence of values, one
//! per position. An ignore-list names positions that take no part when a call
//! is compared with an expectation; what is left of a tuple after dropping them
//! is its reduced tuple.

use vstd::prelude::*;
use vstd::std_specs::cmp::PartialEqSpec;
use vstd::string::StringExecFns;

verus! {

/// Whether `position` is on the ignore-list.
pub open spec fn ignores(ignore_indices: Seq<usize>, position: int) -> bool {
    exists|k: int| 0 <= k < ignore_indices.len() && #[trigger] ignore_indices[k] == position
}

/// The reduced tuple: the entries of `params` at the positions that are not
/// ignored, in their order.
pub open spec fn project<T>(params: Seq<T>, ignore_indices: Seq<usize>) -> Seq<T>
    decreases params.len(),
{
    if params.len() == 0 {
        Seq::empty()
    } else {
        let front = project(params.drop_last(), ignore_indices);
        if ignores(ignore_indices, params.len() - 1) {
            front
        } else {
            front.push(params.last())
        }
    }
}

/// Whether two tuples have the same length and equal entries, position by
/// position.
pub open spec fn tuples_equal<T: PartialEq>(left: Seq<T>, right: Seq<T>) -> bool {
    &&& left.len() == right.len()
    &&& forall|i: int| 0 <= i < left.len() ==> (#[trigger] left[i]).eq_spec(&right[i])
}

/// Whether `position` is the first place at which `name` stands in `names`.
pub open spec fn is_first_position(names: Seq<String>, name: Seq<char>, position: int) -> bool {
    &&& 0 <= position < names.len()
    &&& names[position]@ == name
    &&& forall|j: int| 0 <= j < position ==> (#[trigger] names[j])@ != name
}

/// Whether `name` stands anywhere in `names`.
pub open spec fn is_declared(names: Seq<String>, name: Seq<char>) -> bool {
    exists|i: int| 0 <= i < names.len() && (#[trigger] names[i])@ == name
}

/// What an ignore-list entry that names no parameter is reported with.
pub open spec fn unknown_parameter_text(name: Seq<char>) -> Seq<char> {
    "Parameter '"@ + name + "' not found in function signature"@
}

/// The shape in which a tuple of some length is written: nothing at all, the
/// one value by itself, or a tuple proper.
#[derive(Clone, Copy, Debug, PartialEq, Eq, Structural)]
pub enum ParamShape {
    Unit,
    Bare,
    Tuple(usize),
}

/// The shape of a tuple with `count` entries. One entry stands bare, not as a
/// one-entry tuple.
pub open spec fn shape_of(count: nat) -> ParamShape {
    if count == 0 {
        ParamShape::Unit
    } else if count == 1 {
        ParamShape::Bare
    } else {
        ParamShape::Tuple(count as usize)
    }
}

/// Looks `position` up on the ignore-list.
pub fn is_ignored(ignore_indices: &Vec<usize>, position: usize) -> (ignored: bool)
    ensures
        ignored == ignores(ignore_indices@, position as int),
{
    let mut k: usize = 0;
    while k < ignore_indices.len()
        invariant
            k <= ignore_indices.len(),
            forall|j: int| 0 <= j < k ==> #[trigger] ignore_indices@[j] != position,
        decreases ignore_indices.len() - k,
    {
        if ignore_indices[k] == position {
            return true;
        }
        k += 1;
    }
    false
}

/// Unfolds `project` by one position of a prefix of `params`.
proof fn lemma_project_prefix_step<T>(params: Seq<T>, ignore_indices: Seq<usize>, position: int)
    requires
        0 <= position < params.len(),
    ensures
        project(params.take(position + 1), ignore_indices) == if ignores(
            ignore_indices,
            position,
        ) {
            project(params.take(position), ignore_indices)
        } else {
            project(params.take(position), ignore_indices).push(params[position])
        },
{
    assert(params.take(position + 1).drop_last() =~= params.take(position));
}

/// The reduced tuple of `params`, as references into it.
pub fn filter_params<'a, T>(params: &'a Vec<T>, ignore_indices: &Vec<usize>) -> (reduced: Vec<
    &'a T,
>)
    ensures
        reduced@.len() == project(params@, ignore_indices@).len(),
        forall|k: int|
            0 <= k < reduced@.len() ==> *#[trigger] reduced@[k] == project(
                params@,
                ignore_indices@,
            )[k],
{
    let mut reduced: Vec<&'a T> = Vec::new();
    let mut position: usize = 0;
    while position < params.len()
        invariant
            position <= params.len(),
            reduced@.len() == project(params@.take(position as int), ignore_indices@).len(),
            forall|k: int|
                0 <= k < reduced@.len() ==> *#[trigger] reduced@[k] == project(
                    params@.take(position as int),
                    ignore_indices@,
                )[k],
        decreases params.len() - position,
    {
        proof {
            lemma_project_prefix_step(params@, ignore_indices@, position as int);
        }
        if !is_ignored(ignore_indices, position) {
            reduced.push(&params[position]);
        }
        position += 1;
    }
    assert(params@.take(params@.len() as int) =~= params@);
    reduced
}

/// Whether the reduced tuple of `params` equals `expected`.
pub fn matches_ignoring<T: PartialEq>(
    params: &Vec<T>,
    expected: &Vec<T>,
    ignore_indices: &Vec<usize>,
) -> (same: bool)
    ensures
        T::obeys_eq_spec() ==> same == tuples_equal(
            project(params@, ignore_indices@),
            expected@,
        ),
{
    let reduced = filter_params(params, ignore_indices);
    if reduced.len() != expected.len() {
        return false;
    }
    let mut k: usize = 0;
    while k < reduced.len()
        invariant
            k <= reduced.len(),
            reduced@.len() == expected@.len(),
            reduced@.len() == project(params@, ignore_indices@).len(),
            forall|j: int|
                0 <= j < reduced@.len() ==> *#[trigger] reduced@[j] == project(
                    params@,
                    ignore_indices@,
                )[j],
            T::obeys_eq_spec() ==> forall|j: int|
                0 <= j < k ==> (#[trigger] project(params@, ignore_indices@)[j]).eq_spec(
                    &expected@[j],
                ),
        decreases reduced.len() - k,
    {
        let same = *reduced[k] == expected[k];
        assert(T::obeys_eq_spec() ==> same == project(params@, ignore_indices@)[k as int].eq_spec(
            &expected@[k as int],
        ));
        if !same {
            return false;
        }
        k += 1;
    }
    true
}

/// How many positions below `param_count` are not ignored.
pub open spec fn kept_count(param_count: nat, ignore_indices: Seq<usize>) -> nat
    decreases param_count,
{
    if param_count == 0 {
        0
    } else if ignores(ignore_indices, param_count - 1) {
        kept_count((param_count - 1) as nat, ignore_indices)
    } else {
        kept_count((param_count - 1) as nat, ignore_indices) + 1
    }
}

/// The shape of the reduced tuple of a function with `param_count`
/// parameters.
pub fn reduced_shape(param_count: usize, ignore_indices: &Vec<usize>) -> (shape: ParamShape)
    ensures
        shape == shape_of(kept_count(param_count as nat, ignore_indices@)),
{
    let mut kept: usize = 0;
    let mut position: usize = 0;
    while position < param_count
        invariant
            position <= param_count,
            kept <= position,
            kept == kept_count(position as nat, ignore_indices@),
        decreases param_count - position,
    {
        if !is_ignored(ignore_indices, position) {
            kept += 1;
        }
        position += 1;
    }
    if kept == 0 {
        ParamShape::Unit
    } else if kept == 1 {
        ParamShape::Bare
    } else {
        ParamShape::Tuple(kept)
    }
}

/// The first position at which `name` stands in `param_names`, if any.
pub fn position_of(param_names: &Vec<String>, name: &String) -> (found: Option<usize>)
    ensures
        match found {
            Some(position) => is_first_position(param_names@, name@, position as int),
            None => !is_declared(param_names@, name@),
        },
{
    let mut i: usize = 0;
    while i < param_names.len()
        invariant
            i <= param_names.len(),
            forall|j: int| 0 <= j < i ==> (#[trigger] param_names@[j])@ != name@,
        decreases param_names.len() - i,
    {
        if param_names[i] == *name {
            return Some(i);
        }
        i += 1;
    }
    None
}

/// The report for an ignore-list entry that names no parameter.
pub fn unknown_parameter_message(name: &String) -> (message: String)
    ensures
        message@ == unknown_parameter_text(name@),
{
    let mut message = String::from_str("Parameter '");
    message.append(name.as_str());
    message.append("' not found in function signature");
    message
}

/// Turns an ignore-list given by parameter names into positions.
///
/// Each name is looked up among `param_names` and stands for the first
/// position that carries it; the positions come out in the order of
/// `ignore_params`. A name that no parameter carries is an error, reported for
/// the first such name.
pub fn get_ignore_indices(param_names: &Vec<String>, ignore_params: &Vec<String>) -> (result:
    Result<Vec<usize>, String>)
    ensures
        result is Ok <==> forall|k: int|
            0 <= k < ignore_params@.len() ==> is_declared(
                param_names@,
                (#[trigger] ignore_params@[k])@,
            ),
        match result {
            Ok(indices) => {
                &&& indices@.len() == ignore_params@.len()
                &&& forall|k: int|
                    0 <= k < indices@.len() ==> is_first_position(
                        param_names@,
                        (#[trigger] ignore_params@[k])@,
                        indices@[k] as int,
                    )
            },
            Err(message) => exists|k: int|
                {
                    &&& 0 <= k < ignore_params@.len()
                    &&& !is_declared(param_names@, (#[trigger] ignore_params@[k])@)
                    &&& forall|j: int|
                        0 <= j < k ==> is_declared(param_names@, (#[trigger] ignore_params@[j])@)
                    &&& message@ == unknown_parameter_text(ignore_params@[k]@)
                },
        },
{
    let mut indices: Vec<usize> = Vec::new();
    let mut k: usize = 0;
    while k < ignore_params.len()
        invariant
            k <= ignore_params.len(),
            indices@.len() == k,
            forall|j: int|
                0 <= j < k ==> is_first_position(
                    param_names@,
                    (#[trigger] ignore_params@[j])@,
                    indices@[j] as int,
                ),
        decreases ignore_params.len() - k,
    {
        match position_of(param_names, &ignore_params[k]) {
            Some(position) => {
                indices.push(position);
            },
            None => {
                assert forall|j: int| 0 <= j < k implies is_declared(
                    param_names@,
                    (#[trigger] ignore_params@[j])@,
                ) by {
                    assert(is_first_position(
                        param_names@,
                        ignore_params@[j]@,
                        indices@[j] as int,
                    ));
                }
                return Err(unknown_parameter_message(&ignore_params[k]));
            },
        }
        k += 1;
    }
    Ok(indices)
}

/// Two tuples of one length that agree at every position that is not ignored
/// have the same reduced tuple: what stands at an ignored position does not
/// matter.
pub proof fn lemma_project_skips_ignored<T>(
    first: Seq<T>,
    second: Seq<T>,
    ignore_indices: Seq<usize>,
)
    requires
        first.len() == second.len(),
        forall|position: int|
            0 <= position < first.len() && !ignores(ignore_indices, position) ==> first[position]
                == second[position],
    ensures
        project(first, ignore_indices) == project(second, ignore_indices),
    decreases first.len(),
{
    if first.len() > 0 {
        lemma_project_skips_ignored(first.drop_last(), second.drop_last(), ignore_indices);
    }
}

/// The reduced tuple has one entry for each position that is not ignored, so
/// its shape depends on the number of parameters and the ignore-list alone.
/// With nothing ignored the reduced tuple is the tuple itself.
pub proof fn lemma_project_length<T>(params: Seq<T>, ignore_indices: Seq<usize>)
    ensures
        project(params, ignore_indices).len() == kept_count(params.len(), ignore_indices),
        project(params, ignore_indices).len() <= params.len(),
        ignore_indices.len() == 0 ==> project(params, ignore_indices) == params,
    decreases params.len(),
{
    if params.len() > 0 {
        lemma_project_length(params.drop_last(), ignore_indices);
        if ignore_indices.len() == 0 {
            assert(params.drop_last().push(params.last()) =~= params);
        }
    }
}

} // verus!
