//! INSERT statements that carry as many rows as a connection allows.

use vstd::prelude::*;
use vstd::string::*;
use crate::sqlite_error::{SqliteDriverError, SqliteRuntimeError};
use crate::text;
use crate::text::push_decimal;

verus! {

/// How many variables a statement may have.
pub open spec fn variables_allowed(
    limit: Result<i32, SqliteDriverError>,
    wait_cancelled: bool,
) -> Result<usize, SqliteRuntimeError> {
    match limit {
        Ok(limit) => if limit > 0 {
            Ok(limit as usize)
        } else {
            Err(SqliteRuntimeError::Internal("SQLite 变量上限必须为正整数"))
        },
        Err(source) => Err(
            SqliteRuntimeError::of_driver("读取 SQLite 变量上限", source, wait_cancelled),
        ),
    }
}

/// The number of variables that a statement may have, as the connection reports it.
pub fn sqlite_variable_limit(limit: Result<i32, SqliteDriverError>, wait_cancelled: bool) -> (result: Result<
    usize,
    SqliteRuntimeError,
>)
    ensures
        result == variables_allowed(limit, wait_cancelled),
{
    match limit {
        Ok(limit) => {
            if limit > 0 {
                Ok(limit as usize)
            } else {
                Err(SqliteRuntimeError::Internal("SQLite 变量上限必须为正整数"))
            }
        },
        Err(source) => Err(
            SqliteRuntimeError::driver("读取 SQLite 变量上限", source, wait_cancelled),
        ),
    }
}

/// How many rows of `width` variables fit beside the shared ones.
pub open spec fn rows_that_fit(variable_limit: usize, shared: usize, width: usize) -> int {
    if variable_limit < shared {
        0
    } else {
        (variable_limit - shared) / width as int
    }
}

/// Whether `result` says how many rows go into each statement.
pub open spec fn is_chunk_size(
    variable_limit: usize,
    shared: usize,
    width: usize,
    result: Result<usize, SqliteRuntimeError>,
) -> bool {
    let fitting = rows_that_fit(variable_limit, shared, width);
    if width == 0 {
        result == Err::<usize, SqliteRuntimeError>(
            SqliteRuntimeError::Internal("bulk INSERT 每行参数数量不得为零"),
        )
    } else if shared + width > usize::MAX {
        result == Err::<usize, SqliteRuntimeError>(
            SqliteRuntimeError::Internal("bulk INSERT 单行参数数量溢出"),
        )
    } else if fitting == 0 {
        &&& result matches Err(SqliteRuntimeError::Driver { operation, source })
        &&& operation == "规划 bulk INSERT 变量分块"
        &&& source.is_parameter_count((shared + width) as usize, variable_limit)
    } else {
        result == Ok::<usize, SqliteRuntimeError>(fitting as usize)
    }
}

/// The number of rows for each statement; at least one row must fit.
pub fn bulk_insert_rows_per_statement(
    variable_limit: usize,
    shared_parameter_count: usize,
    row_parameter_count: usize,
) -> (result: Result<usize, SqliteRuntimeError>)
    ensures
        is_chunk_size(variable_limit, shared_parameter_count, row_parameter_count, result),
{
    if row_parameter_count == 0 {
        return Err(SqliteRuntimeError::Internal("bulk INSERT 每行参数数量不得为零"));
    }
    let single_row_parameter_count: usize = match shared_parameter_count.checked_add(
        row_parameter_count,
    ) {
        Some(count) => count,
        None => {
            return Err(SqliteRuntimeError::Internal("bulk INSERT 单行参数数量溢出"));
        },
    };
    let available: usize = variable_limit.saturating_sub(shared_parameter_count);
    let rows: usize = available / row_parameter_count;
    proof {
        if variable_limit < shared_parameter_count {
            assert(available == 0);
            assert(0int / row_parameter_count as int == 0) by (nonlinear_arith)
                requires
                    row_parameter_count > 0,
            ;
        } else {
            assert(rows <= available) by (nonlinear_arith)
                requires
                    rows == available / row_parameter_count,
                    row_parameter_count > 0,
            ;
        }
    }
    if rows == 0 {
        return Err(
            SqliteRuntimeError::driver(
                "规划 bulk INSERT 变量分块",
                SqliteDriverError::invalid_parameter_count(
                    single_row_parameter_count,
                    variable_limit,
                ),
                false,
            ),
        );
    }
    Ok(rows)
}

/// The number of the variable at place `place` of row `row`: shared variables come first
/// and have the same numbers in every row.
pub open spec fn variable_number(shared: int, width: int, row: int, place: int) -> int {
    if place < shared {
        place + 1
    } else {
        shared + row * width + (place - shared) + 1
    }
}

/// The variables of one row, up to `places` of them.
pub open spec fn row_variables(shared: int, width: int, row: int, places: int) -> Seq<char>
    decreases places,
{
    if places <= 0 {
        Seq::empty()
    } else {
        row_variables(shared, width, row, places - 1) + (if places > 1 {
            ", "@
        } else {
            Seq::empty()
        }) + seq!['?'] + text::decimal(variable_number(shared, width, row, places - 1) as nat)
    }
}

/// One row in brackets.
pub open spec fn row_tuple(shared: int, width: int, row: int) -> Seq<char> {
    seq!['('] + row_variables(shared, width, row, shared + width) + seq![')']
}

/// The first `rows` rows, with commas between them.
pub open spec fn row_tuples(shared: int, width: int, rows: int) -> Seq<char>
    decreases rows,
{
    if rows <= 0 {
        Seq::empty()
    } else {
        row_tuples(shared, width, rows - 1) + (if rows > 1 {
            ", "@
        } else {
            Seq::empty()
        }) + row_tuple(shared, width, rows - 1)
    }
}

/// The statement that inserts `rows` rows.
pub open spec fn bulk_statement(prefix: Seq<char>, shared: int, width: int, rows: int) -> Seq<char> {
    prefix + " VALUES "@ + row_tuples(shared, width, rows)
}

fn push_row(statement: String, shared: usize, width: usize, row: usize) -> (result: Option<String>)
    requires
        shared + width <= usize::MAX,
    ensures
        match result {
            Some(extended) => {
                &&& width == 0 || shared + row * width + width <= usize::MAX
                &&& extended@ == statement@ + row_tuple(shared as int, width as int, row as int)
            },
            None => width > 0 && shared + row * width + width > usize::MAX,
        },
{
    let ghost before = statement@;
    let mut out = statement;
    out.push('(');
    let places: usize = shared + width;
    let mut place: usize = 0;
    assert(out@ =~= before + seq!['('] + row_variables(shared as int, width as int, row as int, 0));
    while place < places
        invariant
            places == shared + width,
            place <= places,
            out@ == before + seq!['('] + row_variables(
                shared as int,
                width as int,
                row as int,
                place as int,
            ),
            place > shared ==> shared + row * width + (place - shared) <= usize::MAX,
        decreases places - place,
    {
        let ghost earlier = out@;
        if place > 0 {
            out = out.concat(", ");
        }
        let number: usize = if place < shared {
            place + 1
        } else {
            let index: Option<usize> = match row.checked_mul(width) {
                Some(skipped) => match shared.checked_add(skipped) {
                    Some(first) => match first.checked_add(place - shared) {
                        Some(index) => index.checked_add(1),
                        None => None,
                    },
                    None => None,
                },
                None => None,
            };
            match index {
                Some(index) => index,
                None => {
                    assert(row * width >= 0) by (nonlinear_arith)
                        requires
                            row >= 0,
                            width >= 0,
                    ;
                    return None;
                },
            }
        };
        out.push('?');
        push_decimal(&mut out, number as u64);
        assert(out@ =~= before + seq!['('] + row_variables(
            shared as int,
            width as int,
            row as int,
            place + 1,
        ));
        place += 1;
    }
    out.push(')');
    assert(out@ =~= before + row_tuple(shared as int, width as int, row as int));
    Some(out)
}

/// Whether `result` is the statement for some rows.
pub open spec fn is_built(
    prefix: Seq<char>,
    shared: usize,
    width: usize,
    rows: usize,
    result: Result<String, SqliteRuntimeError>,
) -> bool {
    if rows == 0 {
        result == Err::<String, SqliteRuntimeError>(
            SqliteRuntimeError::Internal("bulk INSERT 语句不得包含零个 VALUES 元组"),
        )
    } else if shared + width > usize::MAX {
        result == Err::<String, SqliteRuntimeError>(
            SqliteRuntimeError::Internal("bulk INSERT 单行参数数量溢出"),
        )
    } else if width > 0 && shared + rows * width > usize::MAX {
        result == Err::<String, SqliteRuntimeError>(
            SqliteRuntimeError::Internal("bulk INSERT 参数编号溢出"),
        )
    } else {
        result matches Ok(statement) && statement@ == bulk_statement(
            prefix,
            shared as int,
            width as int,
            rows as int,
        )
    }
}

/// Builds the statement that inserts `row_count` rows.
pub fn build_bulk_insert_statement(
    statement_prefix: &str,
    shared_parameter_count: usize,
    row_parameter_count: usize,
    row_count: usize,
) -> (result: Result<String, SqliteRuntimeError>)
    ensures
        is_built(
            statement_prefix@,
            shared_parameter_count,
            row_parameter_count,
            row_count,
            result,
        ),
{
    if row_count == 0 {
        return Err(SqliteRuntimeError::Internal("bulk INSERT 语句不得包含零个 VALUES 元组"));
    }
    if shared_parameter_count.checked_add(row_parameter_count).is_none() {
        return Err(SqliteRuntimeError::Internal("bulk INSERT 单行参数数量溢出"));
    }
    let ghost shared = shared_parameter_count as int;
    let ghost width = row_parameter_count as int;
    let mut statement = String::from_str(statement_prefix).concat(" VALUES ");
    let ghost head = statement@;
    let mut row: usize = 0;
    assert(statement@ =~= head + row_tuples(shared, width, 0));
    while row < row_count
        invariant
            row <= row_count,
            row_count > 0,
            shared == shared_parameter_count,
            width == row_parameter_count,
            shared + width <= usize::MAX,
            head == statement_prefix@ + " VALUES "@,
            statement@ == head + row_tuples(shared, width, row as int),
            row > 0 && width > 0 ==> shared + row * width <= usize::MAX,
        decreases row_count - row,
    {
        if row > 0 {
            statement = statement.concat(", ");
        }
        assert((row + 1) * width == row * width + width) by (nonlinear_arith);
        match push_row(statement, shared_parameter_count, row_parameter_count, row) {
            Some(extended) => {
                statement = extended;
            },
            None => {
                assert(row_count * width >= (row + 1) * width) by (nonlinear_arith)
                    requires
                        row_count >= row + 1,
                        width >= 0,
                ;
                return Err(SqliteRuntimeError::Internal("bulk INSERT 参数编号溢出"));
            },
        }
        assert(statement@ =~= head + row_tuples(shared, width, row + 1));
        row += 1;
    }
    Ok(statement)
}

/// How a bulk INSERT is cut into statements.
#[derive(Clone, Copy, Debug, PartialEq, Eq, Structural)]
pub struct BulkLayout {
    shared: usize,
    width: usize,
    total: usize,
    per_statement: usize,
    variable_limit: usize,
}

impl BulkLayout {
    /// Whole rows, at least one per statement, and never more variables than allowed.
    #[verifier::type_invariant]
    pub closed spec fn is_valid(&self) -> bool {
        &&& self.width > 0
        &&& self.total as int % self.width as int == 0
        &&& self.per_statement as int % self.width as int == 0
        &&& self.per_statement >= self.width
        &&& self.shared + self.per_statement <= self.variable_limit
    }

    pub closed spec fn shared_variables(&self) -> int {
        self.shared as int
    }

    pub closed spec fn row_width(&self) -> int {
        self.width as int
    }

    /// All values of all rows.
    pub closed spec fn values(&self) -> int {
        self.total as int
    }

    /// The values of one full statement.
    pub closed spec fn values_per_statement(&self) -> int {
        self.per_statement as int
    }

    pub closed spec fn allowed_variables(&self) -> int {
        self.variable_limit as int
    }

    /// What every layout has in common.
    pub open spec fn fits(&self) -> bool {
        &&& self.row_width() > 0
        &&& self.values() % self.row_width() == 0
        &&& self.values_per_statement() % self.row_width() == 0
        &&& self.values_per_statement() >= self.row_width()
        &&& self.shared_variables() + self.values_per_statement() <= self.allowed_variables()
    }

    /// Lays out `total` values in rows of `width`, as many rows per statement as the
    /// connection allows.
    pub fn new(variable_limit: usize, shared: usize, width: usize, total: usize) -> (result: Result<
        Self,
        SqliteRuntimeError,
    >)
        requires
            width > 0,
            total as int % width as int == 0,
        ensures
            match result {
                Ok(layout) => {
                    &&& layout.fits()
                    &&& layout.shared_variables() == shared
                    &&& layout.row_width() == width
                    &&& layout.values() == total
                    &&& layout.allowed_variables() == variable_limit
                    &&& layout.values_per_statement() == rows_that_fit(
                        variable_limit,
                        shared,
                        width,
                    ) * width
                },
                Err(error) => if shared + width > usize::MAX {
                    error == SqliteRuntimeError::Internal("bulk INSERT 单行参数数量溢出")
                } else {
                    &&& rows_that_fit(variable_limit, shared, width) == 0
                    &&& error matches SqliteRuntimeError::Driver { operation, source }
                    &&& operation == "规划 bulk INSERT 变量分块"
                    &&& source.is_parameter_count((shared + width) as usize, variable_limit)
                },
            },
    {
        let rows: usize = match bulk_insert_rows_per_statement(variable_limit, shared, width) {
            Ok(rows) => rows,
            Err(error) => {
                return Err(error);
            },
        };
        proof {
            let available = variable_limit - shared;
            assert(rows * width <= available) by (nonlinear_arith)
                requires
                    rows == available / width as int,
                    width > 0,
            ;
            assert(rows * width >= width) by (nonlinear_arith)
                requires
                    rows >= 1,
                    width > 0,
            ;
            assert((rows * width) % width as int == 0) by (nonlinear_arith)
                requires
                    width > 0,
            ;
        }
        let per_statement: usize = rows * width;
        Ok(BulkLayout { shared, width, total, per_statement, variable_limit })
    }

    /// Where the statement that starts at `start` ends.
    pub open spec fn end_of(&self, start: int) -> int {
        if start + self.values_per_statement() <= self.values() {
            start + self.values_per_statement()
        } else {
            self.values()
        }
    }

    /// The values of the statement that starts at `start`.
    pub fn count_from(&self, start: usize) -> (count: usize)
        requires
            start < self.values(),
        ensures
            count == self.end_of(start as int) - start,
    {
        let rest: usize = self.total - start;
        if rest < self.per_statement {
            rest
        } else {
            self.per_statement
        }
    }

    pub fn total(&self) -> (total: usize)
        ensures
            total == self.values(),
            self.fits(),
    {
        proof {
            use_type_invariant(self);
        }
        self.total
    }

    /// The statement for `count` values.
    pub fn statement(&self, prefix: &str, count: usize) -> (result: Result<String, SqliteRuntimeError>)
        requires
            0 < count <= self.values_per_statement(),
            count as int % self.row_width() == 0,
        ensures
            result matches Ok(statement) && statement@ == bulk_statement(
                prefix@,
                self.shared_variables(),
                self.row_width(),
                count as int / self.row_width(),
            ),
    {
        proof {
            use_type_invariant(self);
        }
        let rows: usize = count / self.width;
        proof {
            vstd::arithmetic::div_mod::lemma_fundamental_div_mod(count as int, self.width as int);
            assert(rows * self.width == count) by (nonlinear_arith)
                requires
                    count == self.width * rows,
            ;
            assert(rows > 0) by (nonlinear_arith)
                requires
                    rows * self.width == count,
                    count > 0,
                    rows >= 0,
            ;
        }
        build_bulk_insert_statement(prefix, self.shared, self.width, rows)
    }
}

/// Starting at the first value and going on where the last statement ended, every
/// statement holds at least one row, only whole rows, and no more variables than the
/// connection allows; the last one ends with the last value.
pub proof fn bulk_statements_cover_all_rows(layout: BulkLayout, start: int)
    requires
        layout.fits(),
        0 <= start < layout.values(),
        start % layout.row_width() == 0,
    ensures
        start < layout.end_of(start) <= layout.values(),
        layout.end_of(start) % layout.row_width() == 0,
        (layout.end_of(start) - start) % layout.row_width() == 0,
        layout.end_of(start) - start >= layout.row_width(),
        layout.shared_variables() + (layout.end_of(start) - start) <= layout.allowed_variables(),
{
    let width = layout.row_width();
    let end = layout.end_of(start);
    if end == layout.values() {
        lemma_multiples(layout.values(), start, width);
    } else {
        lemma_sum_of_multiples(start, layout.values_per_statement(), width);
        lemma_multiples(start + layout.values_per_statement(), start, width);
    }
}

proof fn lemma_sum_of_multiples(a: int, b: int, width: int)
    requires
        width > 0,
        a % width == 0,
        b % width == 0,
    ensures
        (a + b) % width == 0,
        (a - b) % width == 0,
{
    let i = a / width;
    let j = b / width;
    vstd::arithmetic::div_mod::lemma_fundamental_div_mod(a, width);
    vstd::arithmetic::div_mod::lemma_fundamental_div_mod(b, width);
    assert(a + b == (i + j) * width) by (nonlinear_arith)
        requires
            a == width * i,
            b == width * j,
    ;
    assert(a - b == (i - j) * width) by (nonlinear_arith)
        requires
            a == width * i,
            b == width * j,
    ;
    vstd::arithmetic::div_mod::lemma_mod_multiples_basic(i + j, width);
    vstd::arithmetic::div_mod::lemma_mod_multiples_basic(i - j, width);
}

proof fn lemma_multiples(larger: int, smaller: int, width: int)
    requires
        width > 0,
        smaller < larger,
        smaller % width == 0,
        larger % width == 0,
    ensures
        (larger - smaller) % width == 0,
        larger - smaller >= width,
{
    lemma_sum_of_multiples(larger, smaller, width);
    let rest = larger - smaller;
    vstd::arithmetic::div_mod::lemma_fundamental_div_mod(rest, width);
    let times = rest / width;
    assert(times >= 1) by (nonlinear_arith)
        requires
            rest > 0,
            rest == width * times,
            width > 0,
    ;
    assert(rest >= width) by (nonlinear_arith)
        requires
            rest == width * times,
            times >= 1,
            width > 0,
    ;
}

/// A tuple that names variables by these numbers.
pub open spec fn tuple_of(numbers: Seq<nat>) -> Seq<char> {
    seq!['('] + text::joined(
        numbers.map_values(|number: nat| seq!['?'] + text::decimal(number)),
        ", "@,
    ) + seq![')']
}

/// The values that the numbers stand for; number one stands for the first value.
pub open spec fn denoted<T>(bound: Seq<T>, numbers: Seq<nat>) -> Seq<T> {
    numbers.map_values(|number: nat| bound[number - 1])
}

/// With the shared values bound first and the values of all rows after them, the variables
/// that a tuple names stand for the shared values in their order, followed by the row's
/// own values in theirs.
pub proof fn tuples_stand_for_their_rows<T>(shared: Seq<T>, values: Seq<T>, width: int, row: int) -> (numbers:
    Seq<nat>)
    requires
        0 < width,
        0 <= row,
        (row + 1) * width <= values.len(),
    ensures
        row_tuple(shared.len() as int, width, row) == tuple_of(numbers),
        forall|p: int|
            0 <= p < numbers.len() ==> 1 <= #[trigger] numbers[p] <= shared.len() + values.len(),
        denoted(shared + values, numbers) == shared + values.subrange(row * width, (row + 1) * width),
{
    let count = shared.len() as int;
    assert((row + 1) * width == row * width + width) by (nonlinear_arith);
    assert(row * width >= 0) by (nonlinear_arith)
        requires
            row >= 0,
            width > 0,
    ;
    let numbers = Seq::new(
        (count + width) as nat,
        |p: int| if p < count { (p + 1) as nat } else { (row * width + p + 1) as nat },
    );
    lemma_tuple(count, width, row, numbers, count + width);
    assert(numbers.take(count + width) =~= numbers);
    let found = denoted(shared + values, numbers);
    let wanted = shared + values.subrange(row * width, (row + 1) * width);
    assert forall|p: int| 0 <= p < found.len() implies found[p] == wanted[p] by {
        if p >= count {
            assert((shared + values)[row * width + p] == values[row * width + p - count]);
        }
    }
    assert(found =~= wanted);
    numbers
}

/// The first `places` variables of a tuple, written one after another.
proof fn lemma_tuple(shared: int, width: int, row: int, numbers: Seq<nat>, places: int)
    requires
        0 <= shared,
        0 < width,
        0 <= row,
        0 <= places <= shared + width,
        numbers.len() == shared + width,
        forall|p: int|
            0 <= p < numbers.len() ==> #[trigger] numbers[p] == (if p < shared {
                p + 1
            } else {
                row * width + p + 1
            }),
    ensures
        row_variables(shared, width, row, places) == text::joined(
            numbers.take(places).map_values(|number: nat| seq!['?'] + text::decimal(number)),
            ", "@,
        ),
    decreases places,
{
    let write = |number: nat| seq!['?'] + text::decimal(number);
    let parts = numbers.take(places).map_values(write);
    if places > 0 {
        lemma_tuple(shared, width, row, numbers, places - 1);
        assert(parts.drop_last() =~= numbers.take(places - 1).map_values(write));
        assert(parts.last() == write(numbers[places - 1]));
        let earlier = text::joined(parts.drop_last(), ", "@);
        if places == 1 {
            assert(row_variables(shared, width, row, 0) =~= Seq::empty());
            assert(row_variables(shared, width, row, 1) =~= parts[0]);
        } else {
            assert(row_variables(shared, width, row, places) =~= earlier + ", "@ + parts.last());
        }
    }
}

/// A statement is its beginning and one tuple for each row, from the first row to the last.
pub proof fn statements_hold_one_tuple_per_row(prefix: Seq<char>, shared: int, width: int, rows: int)
    requires
        0 <= rows,
    ensures
        bulk_statement(prefix, shared, width, rows) == prefix + " VALUES "@ + text::joined(
            Seq::new(rows as nat, |row: int| row_tuple(shared, width, row)),
            ", "@,
        ),
{
    lemma_same_tuples(shared, width, rows);
}

proof fn lemma_same_tuples(shared: int, width: int, rows: int)
    requires
        0 <= rows,
    ensures
        row_tuples(shared, width, rows) == text::joined(
            Seq::new(rows as nat, |row: int| row_tuple(shared, width, row)),
            ", "@,
        ),
    decreases rows,
{
    let tuple = |row: int| row_tuple(shared, width, row);
    let tuples = Seq::new(rows as nat, tuple);
    if rows > 0 {
        lemma_same_tuples(shared, width, rows - 1);
        assert(tuples.drop_last() =~= Seq::new((rows - 1) as nat, tuple));
        if rows == 1 {
            assert(row_tuples(shared, width, 0) =~= Seq::empty());
            assert(row_tuples(shared, width, 1) =~= tuples[0]);
        } else {
            assert(row_tuples(shared, width, rows) =~= text::joined(tuples.drop_last(), ", "@) + ", "@
                + tuples.last());
        }
    }
}

/// As many rows go into a statement as the connection allows variables for: these fit
/// beside the shared ones, and one more would not.
pub proof fn statements_are_as_large_as_allowed(limit: usize, shared: usize, width: usize)
    requires
        0 < width,
    ensures
        ({
            let rows = rows_that_fit(limit, shared, width);
            &&& rows >= 0
            &&& rows > 0 ==> shared + rows * width <= limit
            &&& shared + (rows + 1) * width > limit
        }),
{
    let rows = rows_that_fit(limit, shared, width);
    if limit < shared {
        assert((0 + 1) * width == width) by (nonlinear_arith);
    } else {
        let free = limit - shared;
        vstd::arithmetic::div_mod::lemma_fundamental_div_mod(free, width as int);
        assert(rows * width <= free < (rows + 1) * width && rows >= 0) by (nonlinear_arith)
            requires
                rows == free / width as int,
                free == width * (free / width as int) + free % width as int,
                0 <= free % width as int,
                free % (width as int) < width,
                free >= 0,
                width > 0,
        ;
    }
}

/// The rows are cut into the largest parts that fit, and a statement is refused exactly when
/// not even one row fits, or a row has no values. A statement is written for every number of
/// rows but none, as long as its variables can be numbered.
pub proof fn parts_are_as_large_as_allowed(
    limit: usize,
    shared: usize,
    width: usize,
    cut: Result<usize, SqliteRuntimeError>,
    prefix: Seq<char>,
    rows: usize,
    written: Result<String, SqliteRuntimeError>,
)
    requires
        is_chunk_size(limit, shared, width, cut),
        is_built(prefix, shared, width, rows, written),
    ensures
        cut is Ok <==> 0 < width && shared + width <= limit,
        cut matches Ok(count) ==> count > 0 && shared + count * width <= limit && shared + (count + 1)
            * width > limit,
        cut matches Err(SqliteRuntimeError::Driver { source, .. }) ==> shared + width <= usize::MAX
            && source.is_parameter_count((shared + width) as usize, limit),
        cut is Err && 0 < width && shared + width <= usize::MAX ==> (cut matches Err(error)
            && error is Driver),
        written is Ok <==> 0 < rows && shared + width <= usize::MAX && (width == 0 || shared + rows
            * width <= usize::MAX),
        written matches Err(error) ==> error is Internal,
        written matches Ok(statement) ==> statement@ == bulk_statement(
            prefix,
            shared as int,
            width as int,
            rows as int,
        ),
{
    if width > 0 {
        let fitting = rows_that_fit(limit, shared, width);
        statements_are_as_large_as_allowed(limit, shared, width);
        assert((0 + 1) * width == width) by (nonlinear_arith);
        if fitting > 0 {
            assert(fitting * width >= width && fitting <= fitting * width) by (nonlinear_arith)
                requires
                    fitting > 0,
                    width > 0,
            ;
        }
    }
}

} // verus!
