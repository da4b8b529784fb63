//! What a function's signature has to be like before a mock can stand in for
//! it: recorded parameters are kept beyond the call, so their types may not
//! borrow.

use vstd::prelude::*;
use vstd::string::StringExecFns;
use crate::param_utils::{
    get_ignore_indices, ignores, is_declared, is_first_position, is_ignored, kept_count, project,
    reduced_shape, shape_of, unknown_parameter_text, ParamShape,
};
use crate::use_tree_processor::double_name;

verus! {

/// The shape of a type, as far as the search for borrowed data reads it.
pub enum TypeShape {
    /// `&T` or `&mut T`.
    Reference,
    /// `(A, B, ..)`.
    Tuple(Vec<TypeShape>),
    /// `[T; N]`.
    Array(Box<TypeShape>),
    /// `[T]`.
    Slice(Box<TypeShape>),
    /// `(T)`.
    Paren(Box<TypeShape>),
    /// A type inside invisible delimiters.
    Group(Box<TypeShape>),
    /// Anything else; taken to own its data.
    Other,
}

impl TypeShape {
    /// Whether a reference stands anywhere in the type, looking through
    /// tuples, arrays, slices, parentheses and groups.
    pub open spec fn has_reference(self) -> bool
        decreases self,
    {
        match self {
            TypeShape::Reference => true,
            TypeShape::Tuple(elems) => exists|i: int|
                0 <= i < elems@.len() && (#[trigger] elems@[i]).has_reference(),
            TypeShape::Array(elem) => elem.has_reference(),
            TypeShape::Slice(elem) => elem.has_reference(),
            TypeShape::Paren(elem) => elem.has_reference(),
            TypeShape::Group(elem) => elem.has_reference(),
            TypeShape::Other => false,
        }
    }

    /// Searches the type for a reference.
    pub fn contains_reference(&self) -> (found: bool)
        ensures
            found == self.has_reference(),
        decreases self,
    {
        match self {
            TypeShape::Reference => true,
            TypeShape::Tuple(elems) => {
                let mut i: usize = 0;
                while i < elems.len()
                    invariant
                        i <= elems.len(),
                        self is Tuple,
                        self->Tuple_0 == *elems,
                        forall|j: int| 0 <= j < i ==> !(#[trigger] elems@[j]).has_reference(),
                    decreases elems.len() - i,
                {
                    if elems[i].contains_reference() {
                        return true;
                    }
                    i += 1;
                }
                false
            },
            TypeShape::Array(elem) => elem.contains_reference(),
            TypeShape::Slice(elem) => elem.contains_reference(),
            TypeShape::Paren(elem) => elem.contains_reference(),
            TypeShape::Group(elem) => elem.contains_reference(),
            TypeShape::Other => false,
        }
    }
}

/// Whether `position` is the first parameter that is compared and borrows.
pub open spec fn is_first_borrowed(
    param_types: Seq<TypeShape>,
    ignore_indices: Seq<usize>,
    position: int,
) -> bool {
    &&& 0 <= position < param_types.len()
    &&& !ignores(ignore_indices, position)
    &&& param_types[position].has_reference()
    &&& forall|j: int|
        0 <= j < position && !ignores(ignore_indices, j) ==> !(#[trigger] param_types[j]).has_reference()
}

/// Whether no parameter that is compared borrows.
pub open spec fn all_static(param_types: Seq<TypeShape>, ignore_indices: Seq<usize>) -> bool {
    forall|j: int|
        0 <= j < param_types.len() && !ignores(ignore_indices, j) ==> !(
        #[trigger] param_types[j]).has_reference()
}

/// Checks that no parameter outside the ignore-list borrows. The error is the
/// position of the first that does.
pub fn validate_static_params(param_types: &Vec<TypeShape>, ignore_indices: &Vec<usize>) -> (result:
    Result<(), usize>)
    ensures
        match result {
            Ok(_) => all_static(param_types@, ignore_indices@),
            Err(position) => is_first_borrowed(param_types@, ignore_indices@, position as int),
        },
{
    let mut position: usize = 0;
    while position < param_types.len()
        invariant
            position <= param_types.len(),
            forall|j: int|
                0 <= j < position && !ignores(ignore_indices@, j) ==> !(
                #[trigger] param_types@[j]).has_reference(),
        decreases param_types.len() - position,
    {
        if !is_ignored(ignore_indices, position) && param_types[position].contains_reference() {
            return Err(position);
        }
        position += 1;
    }
    Ok(())
}

/// What a borrowing parameter is reported with.
pub open spec fn borrowed_parameter_text() -> Seq<char> {
    "mock_function requires all parameters to be 'static. Parameters cannot contain references. Consider using owned types like String instead of &str, or Vec<T> instead of &[T]."@
}

/// Checks that a function can be mocked: no parameter outside the
/// ignore-list borrows. The error is the report for one that does.
pub fn validate_function_mockable(param_types: &Vec<TypeShape>, ignore_indices: &Vec<usize>) -> (result:
    Result<(), String>)
    ensures
        match result {
            Ok(_) => all_static(param_types@, ignore_indices@),
            Err(message) => {
                &&& !all_static(param_types@, ignore_indices@)
                &&& message@ == borrowed_parameter_text()
            },
        },
{
    match validate_static_params(param_types, ignore_indices) {
        Ok(_) => Ok(()),
        Err(_) => Err(
            String::from_str(
                "mock_function requires all parameters to be 'static. Parameters cannot contain references. Consider using owned types like String instead of &str, or Vec<T> instead of &[T].",
            ),
        ),
    }
}

/// What has been decided about the mock of one function before any of it
/// is written down.
pub struct MockPlan {
    /// The name of the mocked twin and of the module around the mock.
    pub mock_fn_name: String,
    /// The positions of the ignored parameters, in the order in which the
    /// ignore-list names them.
    pub ignore_indices: Vec<usize>,
    /// The positions that are compared, ascending.
    pub kept_positions: Vec<usize>,
    /// The shape of the tuple that calls are recorded with.
    pub full_shape: ParamShape,
    /// The shape of the tuple that expectations are written with.
    pub reduced_shape: ParamShape,
}

/// Whether `indices` holds, for each name of the ignore-list in turn, the
/// first position that carries it.
pub open spec fn resolves(
    param_names: Seq<String>,
    ignore_params: Seq<String>,
    indices: Seq<usize>,
) -> bool {
    &&& indices.len() == ignore_params.len()
    &&& forall|k: int|
        0 <= k < indices.len() ==> is_first_position(
            param_names,
            (#[trigger] ignore_params[k])@,
            indices[k] as int,
        )
}

/// Whether `positions` holds exactly the positions below `param_count` that
/// are not ignored, ascending.
pub open spec fn keeps(positions: Seq<usize>, param_count: nat, ignore_indices: Seq<usize>) -> bool {
    positions == project(Seq::new(param_count, |i: int| i as usize), ignore_indices)
}

/// The positions below `param_count` that are not ignored, ascending.
pub fn kept_positions(param_count: usize, ignore_indices: &Vec<usize>) -> (positions: Vec<usize>)
    ensures
        keeps(positions@, param_count as nat, ignore_indices@),
{
    let ghost all = Seq::new(param_count as nat, |i: int| i as usize);
    let mut positions: Vec<usize> = Vec::new();
    let mut position: usize = 0;
    proof {
        assert(all.take(0) =~= Seq::<usize>::empty());
    }
    while position < param_count
        invariant
            position <= param_count,
            all == Seq::new(param_count as nat, |i: int| i as usize),
            positions@ == project(all.take(position as int), ignore_indices@),
        decreases param_count - position,
    {
        proof {
            assert(all.take(position + 1).drop_last() =~= all.take(position as int));
            assert(all.take(position + 1).last() == position);
        }
        if !is_ignored(ignore_indices, position) {
            positions.push(position);
        }
        position += 1;
    }
    proof {
        assert(all.take(param_count as int) =~= all);
    }
    positions
}

/// Decides how a function is mocked, from its name, its parameters and the
/// names on its ignore-list. The parameters' names and types are given
/// position by position; the number of names is the number of parameters.
///
/// The ignore-list is resolved first: a name that no parameter carries ends
/// the work with its report. Then the parameters that are compared are
/// checked for borrowed data. Whether the function is `async` plays no part:
/// the behaviour that stands in for it is synchronous either way.
pub fn process_mock_function(
    fn_name: &str,
    param_names: &Vec<String>,
    param_types: &Vec<TypeShape>,
    ignore_params: &Vec<String>,
) -> (result: Result<MockPlan, String>)
    ensures
        match result {
            Ok(plan) => {
                &&& plan.mock_fn_name@ == fn_name@ + "_mock"@
                &&& resolves(param_names@, ignore_params@, plan.ignore_indices@)
                &&& all_static(param_types@, plan.ignore_indices@)
                &&& keeps(plan.kept_positions@, param_names@.len(), plan.ignore_indices@)
                &&& plan.full_shape == shape_of(param_names@.len())
                &&& plan.reduced_shape == shape_of(
                    kept_count(param_names@.len(), plan.ignore_indices@),
                )
            },
            Err(message) => {
                ||| exists|k: int|
                    {
                        &&& 0 <= k < ignore_params@.len()
                        &&& !is_declared(param_names@, (#[trigger] ignore_params@[k])@)
                        &&& forall|j: int|
                            0 <= j < k ==> is_declared(
                                param_names@,
                                (#[trigger] ignore_params@[j])@,
                            )
                        &&& message@ == unknown_parameter_text(ignore_params@[k]@)
                    }
                ||| exists|indices: Seq<usize>|
                    {
                        &&& #[trigger] resolves(param_names@, ignore_params@, indices)
                        &&& !all_static(param_types@, indices)
                        &&& message@ == borrowed_parameter_text()
                    }
            },
        },
{
    let mock_fn_name = double_name(fn_name, "_mock");
    let ignore_indices = match get_ignore_indices(param_names, ignore_params) {
        Ok(indices) => indices,
        Err(message) => {
            return Err(message);
        },
    };
    assert(resolves(param_names@, ignore_params@, ignore_indices@));
    match validate_function_mockable(param_types, &ignore_indices) {
        Ok(_) => {},
        Err(message) => {
            return Err(message);
        },
    }
    let nothing: Vec<usize> = Vec::new();
    let full_shape = reduced_shape(param_names.len(), &nothing);
    proof {
        lemma_kept_count_without_ignoring(param_names@.len(), nothing@);
    }
    let reduced_shape = reduced_shape(param_names.len(), &ignore_indices);
    let kept_positions = kept_positions(param_names.len(), &ignore_indices);
    Ok(MockPlan { mock_fn_name, ignore_indices, kept_positions, full_shape, reduced_shape })
}

/// With nothing ignored, every position is kept.
proof fn lemma_kept_count_without_ignoring(param_count: nat, ignore_indices: Seq<usize>)
    requires
        ignore_indices.len() == 0,
    ensures
        kept_count(param_count, ignore_indices) == param_count,
    decreases param_count,
{
    if param_count > 0 {
        lemma_kept_count_without_ignoring((param_count - 1) as nat, ignore_indices);
    }
}

} // verus!
