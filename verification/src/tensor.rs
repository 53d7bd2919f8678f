use vstd::prelude::*;
use vstd::arithmetic::div_mod::{
    lemma_fundamental_div_mod, lemma_fundamental_div_mod_converse, lemma_mod_bound,
};
use vstd::arithmetic::mul::lemma_mul_inequality;

verus! {

/// The sequences a vector of feature rows denotes.
pub open spec fn views_of(rows: Seq<Vec<u32>>) -> Seq<Seq<u32>> {
    rows.map_values(|v: Vec<u32>| v@)
}

/// A valid batch for input width `w`: at least one row, every row `w` wide.
pub open spec fn valid_batch(rows: Seq<Seq<u32>>, w: int) -> bool {
    rows.len() > 0 && forall|i: int| 0 <= i < rows.len() ==> (#[trigger] rows[i]).len() == w
}

/// Whether every row has the first row's length; vacuous on no rows.
pub open spec fn uniform_rows(rows: Seq<Seq<u32>>) -> bool {
    forall|i: int| 0 <= i < rows.len() ==> (#[trigger] rows[i]).len() == rows[0].len()
}

/// The row-major flattening of rows that are `w` wide: position i*w + j
/// holds element j of row i.
pub open spec fn row_major(rows: Seq<Seq<u32>>, w: int) -> Seq<u32> {
    Seq::new((rows.len() * w) as nat, |k: int| rows[k / w][k % w])
}

/// One value per row of a row-major [batch, m] buffer: the head of each row.
pub open spec fn first_column(flat: Seq<u32>, batch: int, m: int) -> Seq<u32> {
    Seq::new(batch as nat, |i: int| flat[i * m])
}

/// Order preservation into the tensor: in the row-major flattening of a
/// batch of rows `w` wide, row i stands unchanged at positions
/// i*w .. (i+1)*w, so the single batched execution sees the rows in their
/// original index order.
pub proof fn lemma_row_major_keeps_rows(rows: Seq<Seq<u32>>, w: int, i: int)
    requires
        w >= 1,
        valid_batch(rows, w),
        0 <= i < rows.len(),
    ensures
        row_major(rows, w).len() == rows.len() * w,
        row_major(rows, w).subrange(i * w, (i + 1) * w) =~= rows[i],
{
    let n = rows.len() as int;
    let flat = row_major(rows, w);
    assert((i + 1) * w == i * w + w) by (nonlinear_arith);
    assert(i * w >= 0) by (nonlinear_arith)
        requires
            i >= 0,
            w >= 1,
    ;
    lemma_mul_inequality(i + 1, n, w);
    assert forall|j: int| 0 <= j < w implies flat.subrange(i * w, (i + 1) * w)[j]
        == rows[i][j] by {
        lemma_fundamental_div_mod_converse(i * w + j, w, i, j);
    };
}

/// Order and cardinality preservation out of the model: extracting the
/// first column of a row-major [batch, m] output buffer yields exactly one
/// value per input row, the i-th taken from the head of output row i.
pub proof fn lemma_first_column_order(flat: Seq<u32>, batch: int, m: int, i: int)
    requires
        m >= 1,
        batch >= 0,
        flat.len() == batch * m,
        0 <= i < batch,
    ensures
        first_column(flat, batch, m).len() == batch,
        first_column(flat, batch, m)[i] == flat[i * m],
{
}

/// Flattens `rows`, each exactly `w` wide, into one contiguous row-major
/// buffer, the layout the batched tensor execution expects.
pub fn flatten_rows(rows: &Vec<Vec<u32>>, w: usize) -> (r: Vec<u32>)
    requires
        w >= 1,
        forall|i: int| 0 <= i < rows@.len() ==> (#[trigger] rows@[i])@.len() == w as int,
        rows@.len() * (w as int) <= usize::MAX,
    ensures
        r@.len() == rows@.len() * (w as int),
        forall|a: int, b: int|
            0 <= a < rows@.len() && 0 <= b < w ==> r@[a * (w as int) + b] == rows@[a]@[b],
        r@ == row_major(views_of(rows@), w as int),
{
    let n = rows.len();
    let ghost wi = w as int;
    let mut r: Vec<u32> = Vec::new();
    let mut i: usize = 0;
    while i < n
        invariant
            n == rows@.len(),
            w >= 1,
            forall|t: int| 0 <= t < n ==> (#[trigger] rows@[t])@.len() == wi,
            n * wi <= usize::MAX,
            wi == w as int,
            i <= n,
            r@.len() == i * wi,
            forall|a: int, b: int| 0 <= a < i && 0 <= b < w ==> r@[a * wi + b] == rows@[a]@[b],
        decreases n - i,
    {
        let mut j: usize = 0;
        proof {
            assert((i + 1) * wi == i * wi + wi) by (nonlinear_arith);
            lemma_mul_inequality(i as int + 1, n as int, wi);
        }
        while j < w
            invariant
                n == rows@.len(),
                w >= 1,
                forall|t: int| 0 <= t < n ==> (#[trigger] rows@[t])@.len() == wi,
                wi == w as int,
                i < n,
                j <= w,
                r@.len() == i * wi + j,
                forall|a: int, b: int| 0 <= a < i && 0 <= b < w ==> r@[a * wi + b] == rows@[a]@[b],
                forall|b: int| 0 <= b < j ==> r@[i * wi + b] == rows@[i as int]@[b],
            decreases w - j,
        {
            r.push(rows[i][j]);
            proof {
                assert forall|a: int, b: int| 0 <= a < i && 0 <= b < w implies r@[a * wi + b]
                    == rows@[a]@[b] by {
                    lemma_mul_inequality(a + 1, i as int, wi);
                    assert((a + 1) * wi == a * wi + wi) by (nonlinear_arith);
                };
            }
            j = j + 1;
        }
        proof {
            assert((i + 1) * wi == i * wi + wi) by (nonlinear_arith);
        }
        i = i + 1;
    }
    proof {
        let vs = views_of(rows@);
        let flat = row_major(vs, wi);
        assert forall|k: int| 0 <= k < r@.len() implies r@[k] == flat[k] by {
            let a = k / wi;
            let b = k % wi;
            lemma_fundamental_div_mod(k, wi);
            lemma_mod_bound(k, wi);
            assert(0 <= a && a < n) by (nonlinear_arith)
                requires
                    k == wi * a + b,
                    0 <= b < wi,
                    wi >= 1,
                    0 <= k < n * wi,
            ;
            assert(r@[a * wi + b] == rows@[a]@[b]);
        };
        assert(r@ =~= flat);
    }
    r
}

/// Extracts the prediction for each row of a batch of `batch` rows from the
/// flat row-major [batch, m] output buffer: the head of each output row, in
/// the original row order.
pub fn extract_first_column(flat: &Vec<u32>, batch: usize, m: usize) -> (r: Vec<u32>)
    requires
        m >= 1,
        flat@.len() == batch * (m as int),
    ensures
        r@.len() == batch,
        forall|i: int| 0 <= i < batch ==> r@[i] == flat@[i * (m as int)],
        r@ == first_column(flat@, batch as int, m as int),
{
    let total = flat.len();
    let ghost mi = m as int;
    let mut r: Vec<u32> = Vec::new();
    let mut i: usize = 0;
    while i < batch
        invariant
            m >= 1,
            mi == m as int,
            total == flat@.len(),
            flat@.len() == batch * mi,
            i <= batch,
            r@.len() == i,
            forall|t: int| 0 <= t < i ==> r@[t] == flat@[t * mi],
        decreases batch - i,
    {
        proof {
            lemma_mul_inequality(i as int + 1, batch as int, mi);
            assert((i + 1) * mi == i * mi + mi) by (nonlinear_arith);
            assert(i * mi >= 0) by (nonlinear_arith)
                requires
                    i >= 0,
                    mi >= 1,
            ;
        }
        let idx = i * m;
        r.push(flat[idx]);
        i = i + 1;
    }
    proof {
        assert(r@ =~= first_column(flat@, batch as int, mi));
    }
    r
}

} // verus!
