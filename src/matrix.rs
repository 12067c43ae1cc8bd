use vstd::prelude::*;

verus! {

/// Why a matrix was refused before any determinant work starts.
#[derive(PartialEq, Eq, Structural, Clone, Copy, Debug)]
pub enum MatrixError {
    /// Some row's length differs from the number of rows.
    ShapeError,
    /// The matrix has no rows.
    EmptyMatrixError,
}

impl MatrixError {
    pub fn message(&self) -> (r: String) {
        match self {
            MatrixError::ShapeError => String::from_str("matrix must be square"),
            MatrixError::EmptyMatrixError => String::from_str("matrix must not be empty"),
        }
    }
}

/// Every row is exactly as long as there are rows.
pub open spec fn is_square<T>(m: Seq<Vec<T>>) -> bool {
    forall|i: int| 0 <= i < m.len() ==> #[trigger] m[i]@.len() == m.len()
}

/// The matrix with row 0 and column `j` taken out.
pub open spec fn minor_of<T>(m: Seq<Vec<T>>, j: int) -> Seq<Seq<T>> {
    Seq::new((m.len() - 1) as nat, |i: int| m[i + 1]@.remove(j))
}

/// The rows as a sequence of sequences.
pub open spec fn rows_of<T>(m: Seq<Vec<T>>) -> Seq<Seq<T>> {
    m.map_values(|r: Vec<T>| r@)
}

/// The sequence `m` with the entries at `a` and `b` exchanged.
pub open spec fn swapped<A>(m: Seq<A>, a: int, b: int) -> Seq<A> {
    m.update(a, m[b]).update(b, m[a])
}

/// Checks that `m` is a non-empty square matrix and returns its size.
/// An empty matrix is refused as empty; any other whose rows are not all as
/// long as the row count is refused as misshapen.
pub fn validate_square<T>(m: &Vec<Vec<T>>) -> (r: Result<usize, MatrixError>)
    ensures
        m@.len() == 0 <==> r == Err::<usize, MatrixError>(MatrixError::EmptyMatrixError),
        (m@.len() > 0 && !is_square(m@)) <==> r == Err::<usize, MatrixError>(
            MatrixError::ShapeError,
        ),
        (m@.len() > 0 && is_square(m@)) <==> r == Ok::<usize, MatrixError>(m@.len() as usize),
{
    let n = m.len();
    if n == 0 {
        return Err(MatrixError::EmptyMatrixError);
    }
    let mut i: usize = 0;
    while i < n
        invariant
            n == m@.len(),
            0 <= i <= n,
            forall|k: int| 0 <= k < i ==> #[trigger] m@[k]@.len() == n,
        decreases n - i,
    {
        if m[i].len() != n {
            return Err(MatrixError::ShapeError);
        }
        i = i + 1;
    }
    Ok(n)
}

/// The minor of a square matrix obtained by deleting row 0 and column `j`.
pub fn minor<T: Copy>(m: &Vec<Vec<T>>, j: usize) -> (r: Vec<Vec<T>>)
    requires
        m@.len() > 0,
        is_square(m@),
        j < m@.len(),
    ensures
        rows_of(r@) == minor_of(m@, j as int),
        is_square(r@),
{
    let n = m.len();
    let mut out: Vec<Vec<T>> = Vec::new();
    let mut i: usize = 1;
    while i < n
        invariant
            n == m@.len(),
            is_square(m@),
            j < n,
            1 <= i <= n,
            out@.len() == i - 1,
            forall|k: int| 0 <= k < i - 1 ==> #[trigger] out@[k]@ == m@[k + 1]@.remove(j as int),
        decreases n - i,
    {
        let row = &m[i];
        assert(row@.len() == n);
        let mut sub: Vec<T> = Vec::new();
        let mut c: usize = 0;
        while c < n
            invariant
                n == m@.len(),
                row@.len() == n,
                j < n,
                0 <= c <= n,
                c <= j ==> sub@ =~= row@.subrange(0, c as int),
                c > j ==> sub@ =~= row@.subrange(0, c as int).remove(j as int),
            decreases n - c,
        {
            if c != j {
                sub.push(row[c]);
            }
            c = c + 1;
        }
        assert(row@.subrange(0, n as int) =~= row@);
        out.push(sub);
        i = i + 1;
    }
    proof {
        assert(rows_of(out@) =~= minor_of(m@, j as int));
    }
    out
}

/// Exchanges rows `a` and `b` of `m` and leaves the others as they were.
pub fn swap_rows<T>(m: &mut Vec<Vec<T>>, a: usize, b: usize)
    requires
        a < old(m)@.len(),
        b < old(m)@.len(),
    ensures
        final(m)@ == swapped(old(m)@, a as int, b as int),
{
    if a == b {
        proof {
            assert(swapped(m@, a as int, b as int) =~= m@);
        }
        return;
    }
    let (lo, hi) = if a < b { (a, b) } else { (b, a) };
    let row_hi = m.remove(hi);
    let row_lo = m.remove(lo);
    m.insert(lo, row_hi);
    m.insert(hi, row_lo);
    proof {
        assert(m@ =~= swapped(old(m)@, a as int, b as int));
    }
}

/// The pivot row for column `k`: among rows `k..keys.len()`, the one with the
/// largest key, the lowest index among equal maxima. Keys order the
/// candidates by magnitude.
pub fn pivot_row(keys: &Vec<u64>, k: usize) -> (r: usize)
    requires
        k < keys@.len(),
    ensures
        k <= r < keys@.len(),
        forall|i: int| k <= i < keys@.len() ==> #[trigger] keys@[i] <= keys@[r as int],
        forall|i: int| k <= i < r ==> #[trigger] keys@[i] < keys@[r as int],
{
    let n = keys.len();
    let mut best: usize = k;
    let mut i: usize = k + 1;
    while i < n
        invariant
            n == keys@.len(),
            k <= best < i <= n,
            forall|t: int| k <= t < i ==> #[trigger] keys@[t] <= keys@[best as int],
            forall|t: int| k <= t < best ==> #[trigger] keys@[t] < keys@[best as int],
        decreases n - i,
    {
        if keys[i] > keys[best] {
            best = i;
        }
        i = i + 1;
    }
    best
}

} // verus!
