//! The per-row calling convention: each row is marshaled, handed to a fresh
//! guest instance, and the answers are collected into one column; the first
//! failure aborts the whole batch.
use vstd::prelude::*;

use crate::column::{Column, ColumnView};
use crate::error::{ExecutionError, TrapError, WasmUdfError};
use crate::marshal::{column_of, from_guest_values, guest_value_of, to_guest_value};
use crate::sandbox::{run_guest, GuestAnswer};
use crate::types::{DataType, GuestValue, ValueType};

verus! {

/// The views of a sequence of columns.
pub open spec fn views(args: Seq<Column>) -> Seq<ColumnView> {
    args.map_values(|c: Column| c@)
}

/// `r` with `prefix` put in front of its values.
pub open spec fn prepend(prefix: Seq<GuestValue>, r: Result<Seq<GuestValue>, WasmUdfError>) -> Result<
    Seq<GuestValue>,
    WasmUdfError,
> {
    match r {
        Ok(rest) => Ok(prefix + rest),
        Err(e) => Err(e),
    }
}

/// The parameters of row `row` from argument `k` on: each cell marshaled as
/// its declared type, in argument order, stopping at the first failure.
pub open spec fn row_params(types: Seq<DataType>, args: Seq<ColumnView>, row: int, k: int) -> Result<
    Seq<GuestValue>,
    WasmUdfError,
>
    decreases types.len() - k,
{
    if k < 0 || k >= types.len() {
        Ok(Seq::empty())
    } else {
        match guest_value_of(args[k], row, types[k]) {
            Err(e) => Err(e),
            Ok(v) => prepend(seq![v], row_params(types, args, row, k + 1)),
        }
    }
}

/// What the guest's answer for row `row` contributes: its value where it has
/// the declared return type, else the execution error that aborts the batch.
pub open spec fn answer_value(a: GuestAnswer, return_type: ValueType, row: int) -> Result<
    GuestValue,
    WasmUdfError,
> {
    match a {
        GuestAnswer::Value(v) => if v.spec_value_type() == return_type {
            Ok(v)
        } else {
            Err(WasmUdfError::Execution(ExecutionError::WrongReturnType { row: row as usize }))
        },
        GuestAnswer::OtherValue => Err(
            WasmUdfError::Execution(ExecutionError::WrongReturnType { row: row as usize }),
        ),
        GuestAnswer::Trap(m) => Err(
            WasmUdfError::Execution(ExecutionError::Trap(TrapError { row: row as usize, message: m })),
        ),
        GuestAnswer::Setup(m) => Err(
            WasmUdfError::Execution(ExecutionError::Setup { row: row as usize, message: m }),
        ),
        GuestAnswer::NoExport => Err(
            WasmUdfError::Execution(ExecutionError::MissingExport { row: row as usize }),
        ),
    }
}

/// The values of rows `i` to `n - 1`, in row order: for each row its
/// parameters are marshaled, then the guest's answer for it is taken; the
/// first row that fails decides the error.
pub open spec fn rows_from(
    types: Seq<DataType>,
    return_type: ValueType,
    args: Seq<ColumnView>,
    n: int,
    answers: Seq<GuestAnswer>,
    i: int,
) -> Result<Seq<GuestValue>, WasmUdfError>
    decreases n - i,
{
    if i < 0 || i >= n {
        Ok(Seq::empty())
    } else {
        match row_params(types, args, i, 0) {
            Err(e) => Err(e),
            Ok(_) => if i >= answers.len() {
                Err(WasmUdfError::Execution(ExecutionError::NoResult { row: i as usize }))
            } else {
                match answer_value(answers[i], return_type, i) {
                    Err(e) => Err(e),
                    Ok(v) => prepend(
                        seq![v],
                        rows_from(types, return_type, args, n, answers, i + 1),
                    ),
                }
            },
        }
    }
}

/// The outcome of a batch of `n` rows given the guest's answers, row by row.
pub open spec fn batch_result(
    types: Seq<DataType>,
    return_type: ValueType,
    args: Seq<ColumnView>,
    n: nat,
    answers: Seq<GuestAnswer>,
) -> Result<ColumnView, WasmUdfError> {
    if args.len() != types.len() {
        Err(
            WasmUdfError::ArityMismatch {
                expected: types.len() as usize,
                actual: args.len() as usize,
            },
        )
    } else if exists|k: int| 0 <= k < args.len() && #[trigger] args[k].cells.len() != n {
        Err(WasmUdfError::Execution(ExecutionError::RowCountMismatch))
    } else {
        match rows_from(types, return_type, args, n as int, answers, 0) {
            Ok(values) => Ok(column_of(values, return_type)),
            Err(e) => Err(e),
        }
    }
}

/// The view of a result that holds a column.
pub open spec fn outcome_view(r: Result<Column, WasmUdfError>) -> Result<ColumnView, WasmUdfError> {
    match r {
        Ok(c) => Ok(c@),
        Err(e) => Err(e),
    }
}

/// The view of a result that holds values.
pub open spec fn values_view(r: Result<Vec<GuestValue>, WasmUdfError>) -> Result<
    Seq<GuestValue>,
    WasmUdfError,
> {
    match r {
        Ok(v) => Ok(v@),
        Err(e) => Err(e),
    }
}

proof fn lemma_prepend_step(p: Seq<GuestValue>, v: GuestValue, r: Result<Seq<GuestValue>, WasmUdfError>)
    ensures
        prepend(p, prepend(seq![v], r)) == prepend(p.push(v), r),
{
    if let Ok(rest) = r {
        assert(p + (seq![v] + rest) =~= p.push(v) + rest);
    }
}

/// Marshals the cells of row `row` into the guest's parameters.
pub fn marshal_row(input_types: &Vec<DataType>, args: &Vec<Column>, row: usize) -> (r: Result<
    Vec<GuestValue>,
    WasmUdfError,
>)
    requires
        input_types@.len() == args@.len(),
        forall|k: int| 0 <= k < args@.len() ==> row < (#[trigger] args@[k])@.cells.len(),
    ensures
        values_view(r) == row_params(input_types@, views(args@), row as int, 0),
{
    let ghost types = input_types@;
    let ghost cols = views(args@);
    let mut params: Vec<GuestValue> = Vec::with_capacity(args.len());
    let mut k: usize = 0;
    while k < args.len()
        invariant
            k <= args@.len() == types.len(),
            types == input_types@,
            cols == views(args@),
            forall|j: int| 0 <= j < args@.len() ==> row < (#[trigger] args@[j])@.cells.len(),
            row_params(types, cols, row as int, 0) == prepend(
                params@,
                row_params(types, cols, row as int, k as int),
            ),
        decreases args@.len() - k,
    {
        assert(cols[k as int] == args@[k as int]@);
        match to_guest_value(&args[k], row, input_types[k]) {
            Err(e) => {
                return Err(e);
            },
            Ok(v) => {
                proof {
                    lemma_prepend_step(
                        params@,
                        v,
                        row_params(types, cols, row as int, k + 1),
                    );
                }
                params.push(v);
            },
        }
        k = k + 1;
    }
    assert(params@ + Seq::<GuestValue>::empty() =~= params@);
    Ok(params)
}

/// The contribution of one answer; see `answer_value`.
pub fn check_answer(answer: &GuestAnswer, return_type: ValueType, row: usize) -> (r: Result<
    GuestValue,
    WasmUdfError,
>)
    ensures
        r == answer_value(*answer, return_type, row as int),
{
    match answer {
        GuestAnswer::Value(v) => if v.value_type() == return_type {
            Ok(*v)
        } else {
            Err(WasmUdfError::Execution(ExecutionError::WrongReturnType { row }))
        },
        GuestAnswer::OtherValue => Err(
            WasmUdfError::Execution(ExecutionError::WrongReturnType { row }),
        ),
        GuestAnswer::Trap(m) => Err(
            WasmUdfError::Execution(ExecutionError::Trap(TrapError { row, message: m.clone() })),
        ),
        GuestAnswer::Setup(m) => Err(
            WasmUdfError::Execution(ExecutionError::Setup { row, message: m.clone() }),
        ),
        GuestAnswer::NoExport => Err(WasmUdfError::Execution(ExecutionError::MissingExport { row })),
    }
}

/// Whether every column holds exactly `number_rows` cells.
pub fn rows_match(args: &Vec<Column>, number_rows: usize) -> (r: bool)
    ensures
        r == (forall|k: int| 0 <= k < args@.len() ==> (#[trigger] args@[k])@.cells.len() == number_rows),
{
    let mut k: usize = 0;
    while k < args.len()
        invariant
            k <= args@.len(),
            forall|j: int| 0 <= j < k ==> (#[trigger] args@[j])@.cells.len() == number_rows,
        decreases args@.len() - k,
    {
        if args[k].len() != number_rows {
            return false;
        }
        k = k + 1;
    }
    true
}

/// Decides the outcome of a batch of `number_rows` rows from the answers the
/// guest gave, `answers[i]` being the answer for row `i`.
///
/// The arity is checked first, then that every column has `number_rows`
/// cells. Then, row by row in index order, the row's cells are marshaled and
/// its answer is taken; the first failure is the result of the whole batch,
/// and no partial column is ever returned. A row without an answer fails.
pub fn collect_answers(
    input_types: &Vec<DataType>,
    return_type: ValueType,
    args: &Vec<Column>,
    number_rows: usize,
    answers: &Vec<GuestAnswer>,
) -> (r: Result<Column, WasmUdfError>)
    ensures
        outcome_view(r) == batch_result(
            input_types@,
            return_type,
            views(args@),
            number_rows as nat,
            answers@,
        ),
{
    let ghost types = input_types@;
    let ghost cols = views(args@);
    if args.len() != input_types.len() {
        return Err(
            WasmUdfError::ArityMismatch { expected: input_types.len(), actual: args.len() },
        );
    }
    if !rows_match(args, number_rows) {
        proof {
            let k = choose|k: int| 0 <= k < args@.len() && (#[trigger] args@[k])@.cells.len() != number_rows;
            assert(cols[k].cells.len() != number_rows);
        }
        return Err(WasmUdfError::Execution(ExecutionError::RowCountMismatch));
    }
    assert(!exists|k: int| 0 <= k < cols.len() && #[trigger] cols[k].cells.len() != number_rows as nat)
        by {
        assert forall|k: int| 0 <= k < cols.len() implies #[trigger] cols[k].cells.len()
            == number_rows as nat by {
            assert(cols[k] == args@[k]@);
        }
    }
    let mut values: Vec<GuestValue> = Vec::with_capacity(number_rows);
    let mut i: usize = 0;
    while i < number_rows
        invariant
            i <= number_rows,
            types == input_types@,
            cols == views(args@),
            types.len() == args@.len(),
            forall|k: int| 0 <= k < args@.len() ==> (#[trigger] args@[k])@.cells.len() == number_rows,
            forall|j: int| 0 <= j < values@.len() ==> (#[trigger] values@[j]).value_type()
                == return_type,
            rows_from(types, return_type, cols, number_rows as int, answers@, 0) == prepend(
                values@,
                rows_from(types, return_type, cols, number_rows as int, answers@, i as int),
            ),
        decreases number_rows - i,
    {
        match marshal_row(input_types, args, i) {
            Err(e) => {
                return Err(e);
            },
            Ok(_) => {},
        }
        if i >= answers.len() {
            return Err(WasmUdfError::Execution(ExecutionError::NoResult { row: i }));
        }
        match check_answer(&answers[i], return_type, i) {
            Err(e) => {
                return Err(e);
            },
            Ok(v) => {
                proof {
                    lemma_prepend_step(
                        values@,
                        v,
                        rows_from(types, return_type, cols, number_rows as int, answers@, i + 1),
                    );
                }
                values.push(v);
            },
        }
        i = i + 1;
    }
    assert(values@ + Seq::<GuestValue>::empty() =~= values@);
    Ok(from_guest_values(&values, return_type))
}

/// Whether an error reports a row for which no answer was given.
pub open spec fn is_missing_answer(e: WasmUdfError) -> bool {
    match e {
        WasmUdfError::Execution(ExecutionError::NoResult { .. }) => true,
        _ => false,
    }
}

/// Row `j` was marshaled and answered with a value of the return type.
pub open spec fn settled(
    types: Seq<DataType>,
    return_type: ValueType,
    args: Seq<ColumnView>,
    answers: Seq<GuestAnswer>,
    j: int,
) -> bool {
    &&& row_params(types, args, j, 0) is Ok
    &&& j < answers.len()
    &&& answer_value(answers[j], return_type, j) is Ok
}

/// Row `k` ends the batch: its cells cannot be marshaled, or its answer fails.
pub open spec fn stops_at(
    types: Seq<DataType>,
    return_type: ValueType,
    args: Seq<ColumnView>,
    answers: Seq<GuestAnswer>,
    k: int,
) -> bool {
    ||| row_params(types, args, k, 0) is Err
    ||| (k < answers.len() && answer_value(answers[k], return_type, k) is Err)
}

proof fn lemma_marshal_error_is_not_missing(
    types: Seq<DataType>,
    args: Seq<ColumnView>,
    row: int,
    k: int,
)
    ensures
        row_params(types, args, row, k) is Err ==> !is_missing_answer(
            row_params(types, args, row, k)->Err_0,
        ),
    decreases types.len() - k,
{
    if 0 <= k < types.len() {
        lemma_marshal_error_is_not_missing(types, args, row, k + 1);
    }
}

proof fn lemma_no_missing_answer(
    types: Seq<DataType>,
    return_type: ValueType,
    args: Seq<ColumnView>,
    n: int,
    answers: Seq<GuestAnswer>,
    k: int,
    i: int,
)
    requires
        0 <= i <= k <= n,
        forall|j: int| i <= j < k ==> #[trigger] settled(types, return_type, args, answers, j),
        k == n || stops_at(types, return_type, args, answers, k),
    ensures
        rows_from(types, return_type, args, n, answers, i) is Err ==> !is_missing_answer(
            rows_from(types, return_type, args, n, answers, i)->Err_0,
        ),
    decreases k - i,
{
    if i < k {
        assert(settled(types, return_type, args, answers, i));
        lemma_no_missing_answer(types, return_type, args, n, answers, k, i + 1);
    } else if k < n {
        lemma_marshal_error_is_not_missing(types, args, k, 0);
    }
}

/// Calls the guest function `name` of the module once per row, in index
/// order, each time in a fresh sandbox, and collects the results.
///
/// The outcome is the batch outcome for the answers the guest gave: the
/// guest is called for a row only once its cells are marshaled, no row is
/// called after a row fails, and every row reached gets its answer. A batch
/// that succeeds yields one value of the return type for each row.
pub fn invoke_rows(
    module_bytes: &[u8],
    name: &str,
    input_types: &Vec<DataType>,
    return_type: ValueType,
    args: &Vec<Column>,
    number_rows: usize,
) -> (r: Result<Column, WasmUdfError>)
    ensures
        exists|answers: Seq<GuestAnswer>|
            answers.len() <= number_rows && outcome_view(r) == #[trigger] batch_result(
                input_types@,
                return_type,
                views(args@),
                number_rows as nat,
                answers,
            ),
        r is Err ==> !is_missing_answer(r->Err_0),
        r is Ok ==> {
            let c = r->Ok_0@;
            &&& c.cells.len() == number_rows
            &&& c.data_type == return_type.spec_data_type()
            &&& forall|i: int| 0 <= i < number_rows ==> (#[trigger] c.cells[i]) is Some
        },
{
    let ghost types = input_types@;
    let ghost cols = views(args@);
    let ghost n = number_rows as int;
    let mut answers: Vec<GuestAnswer> = Vec::new();
    let shaped = args.len() == input_types.len() && rows_match(args, number_rows);
    if shaped {
        let mut i: usize = 0;
        let mut failed = false;
        let ghost mut stop: int = 0;
        while i < number_rows && !failed
            invariant
                i <= number_rows,
                answers@.len() <= i,
                types == input_types@,
                cols == views(args@),
                n == number_rows,
                input_types@.len() == args@.len(),
                forall|k: int| 0 <= k < args@.len() ==> (#[trigger] args@[k])@.cells.len()
                    == number_rows,
                !failed ==> answers@.len() == i,
                !failed ==> forall|j: int|
                    0 <= j < i ==> #[trigger] settled(types, return_type, cols, answers@, j),
                failed ==> 0 <= stop < n,
                failed ==> forall|j: int|
                    0 <= j < stop ==> #[trigger] settled(types, return_type, cols, answers@, j),
                failed ==> stops_at(types, return_type, cols, answers@, stop),
            decreases number_rows - i,
        {
            match marshal_row(input_types, args, i) {
                Err(_) => {
                    failed = true;
                    proof {
                        stop = i as int;
                    }
                },
                Ok(params) => {
                    let answer = run_guest(module_bytes, name, &params, return_type);
                    let checked = check_answer(&answer, return_type, i);
                    let ghost before = answers@;
                    answers.push(answer);
                    proof {
                        assert forall|j: int| 0 <= j < i implies #[trigger] settled(
                            types,
                            return_type,
                            cols,
                            answers@,
                            j,
                        ) by {
                            assert(settled(types, return_type, cols, before, j));
                            assert(answers@[j] == before[j]);
                        }
                        assert(answers@[i as int] == answer);
                    }
                    if checked.is_err() {
                        failed = true;
                        proof {
                            stop = i as int;
                        }
                    }
                },
            }
            i = i + 1;
        }
        proof {
            if failed {
                lemma_no_missing_answer(types, return_type, cols, n, answers@, stop, 0);
            } else {
                lemma_no_missing_answer(types, return_type, cols, n, answers@, n, 0);
            }
        }
        assert(rows_from(types, return_type, cols, n, answers@, 0) is Err ==> !is_missing_answer(
            rows_from(types, return_type, cols, n, answers@, 0)->Err_0,
        ));
    }
    let r = collect_answers(input_types, return_type, args, number_rows, &answers);
    proof {
        lemma_output_length(types, return_type, cols, number_rows as nat, answers@);
        if shaped {
            assert forall|k: int| 0 <= k < cols.len() implies #[trigger] cols[k].cells.len()
                == number_rows as nat by {
                assert(cols[k] == args@[k]@);
            }
        } else if args@.len() == types.len() {
            let k = choose|k: int|
                0 <= k < args@.len() && (#[trigger] args@[k])@.cells.len() != number_rows;
            assert(cols[k] == args@[k]@);
        }
    }
    r
}

proof fn lemma_rows_from_values(
    types: Seq<DataType>,
    return_type: ValueType,
    args: Seq<ColumnView>,
    n: int,
    answers: Seq<GuestAnswer>,
    i: int,
)
    requires
        0 <= i <= n,
    ensures
        rows_from(types, return_type, args, n, answers, i) is Ok ==> {
            let vs = rows_from(types, return_type, args, n, answers, i)->Ok_0;
            &&& vs.len() == n - i
            &&& forall|j: int| 0 <= j < vs.len() ==> (#[trigger] vs[j]).spec_value_type() == return_type
        },
    decreases n - i,
{
    if i < n {
        lemma_rows_from_values(types, return_type, args, n, answers, i + 1);
        let r = rows_from(types, return_type, args, n, answers, i);
        if r is Ok {
            let rest = rows_from(types, return_type, args, n, answers, i + 1)->Ok_0;
            let v = answer_value(answers[i], return_type, i)->Ok_0;
            assert(r->Ok_0 == seq![v] + rest);
            assert forall|j: int| 0 <= j < r->Ok_0.len() implies (#[trigger] r->Ok_0[j]).spec_value_type()
                == return_type by {
                if j > 0 {
                    assert(r->Ok_0[j] == rest[j - 1]);
                }
            }
        }
    }
}

/// A batch of `n` rows that succeeds yields a column of exactly `n` cells,
/// none of them null, of the declared return type.
pub proof fn lemma_output_length(
    types: Seq<DataType>,
    return_type: ValueType,
    args: Seq<ColumnView>,
    n: nat,
    answers: Seq<GuestAnswer>,
)
    ensures
        batch_result(types, return_type, args, n, answers) is Ok ==> {
            let c = batch_result(types, return_type, args, n, answers)->Ok_0;
            &&& c.cells.len() == n
            &&& c.data_type == return_type.spec_data_type()
            &&& forall|i: int| 0 <= i < n ==> (#[trigger] c.cells[i]) is Some
        },
{
    lemma_rows_from_values(types, return_type, args, n as int, answers, 0);
}

proof fn lemma_trap_from(
    types: Seq<DataType>,
    return_type: ValueType,
    args: Seq<ColumnView>,
    n: int,
    answers: Seq<GuestAnswer>,
    k: int,
    message: String,
    i: int,
)
    requires
        0 <= i <= k < n,
        k < answers.len(),
        answers[k] == GuestAnswer::Trap(message),
        forall|j: int| 0 <= j <= k ==> (#[trigger] row_params(types, args, j, 0)) is Ok,
        forall|j: int| 0 <= j < k ==> (#[trigger] answer_value(answers[j], return_type, j)) is Ok,
    ensures
        rows_from(types, return_type, args, n, answers, i) == Err::<Seq<GuestValue>, WasmUdfError>(
            WasmUdfError::Execution(
                ExecutionError::Trap(TrapError { row: k as usize, message }),
            ),
        ),
    decreases k - i,
{
    assert(row_params(types, args, i, 0) is Ok);
    if i < k {
        assert(answer_value(answers[i], return_type, i) is Ok);
        lemma_trap_from(types, return_type, args, n, answers, k, message, i + 1);
    }
}

/// Fail-fast: when the guest traps on row `k` of `n`, every earlier row
/// having succeeded, the whole batch fails with that trap and no column is
/// returned.
pub proof fn lemma_fail_fast(
    types: Seq<DataType>,
    return_type: ValueType,
    args: Seq<ColumnView>,
    n: nat,
    answers: Seq<GuestAnswer>,
    k: int,
    message: String,
)
    requires
        args.len() == types.len(),
        forall|j: int| 0 <= j < args.len() ==> (#[trigger] args[j]).cells.len() == n,
        0 <= k < n,
        k < answers.len(),
        answers[k] == GuestAnswer::Trap(message),
        forall|j: int| 0 <= j <= k ==> (#[trigger] row_params(types, args, j, 0)) is Ok,
        forall|j: int| 0 <= j < k ==> (#[trigger] answer_value(answers[j], return_type, j)) is Ok,
    ensures
        batch_result(types, return_type, args, n, answers) == Err::<ColumnView, WasmUdfError>(
            WasmUdfError::Execution(
                ExecutionError::Trap(TrapError { row: k as usize, message }),
            ),
        ),
{
    lemma_trap_from(types, return_type, args, n as int, answers, k, message, 0);
}

} // verus!
