use vstd::prelude::*;

verus! {

/// The fixed catalog of win patterns, in the stable order in which `bingo`
/// evaluates them: the five rows, the five columns, and the two diagonals of
/// the 5-by-5 grid. The grid's center is a free cell, so the 24 stored cells
/// are numbered row-major with the center skipped, and the four lines that
/// pass through the center have only four indices.
pub open spec fn patterns_spec() -> Seq<Seq<usize>> {
    seq![
        seq![0usize, 1, 2, 3, 4],
        seq![5usize, 6, 7, 8, 9],
        seq![10usize, 11, 12, 13],
        seq![14usize, 15, 16, 17, 18],
        seq![19usize, 20, 21, 22, 23],
        seq![0usize, 5, 10, 14, 19],
        seq![1usize, 6, 11, 15, 20],
        seq![2usize, 7, 16, 21],
        seq![3usize, 8, 12, 17, 22],
        seq![4usize, 9, 13, 18, 23],
        seq![0usize, 6, 17, 23],
        seq![4usize, 8, 15, 19],
    ]
}

/// True when every cell addressed by the pattern's indices holds a value
/// that is present among the drawn values.
pub open spec fn pattern_covered(cells: Seq<u8>, drawn: Seq<u8>, p: Seq<usize>) -> bool {
    forall|j: int| 0 <= j < p.len() ==> drawn.contains(cells[p[j] as int])
}

/// True when at least one cataloged win pattern is fully covered.
pub open spec fn win_exists(cells: Seq<u8>, drawn: Seq<u8>) -> bool {
    exists|k: int|
        0 <= k < patterns_spec().len() && pattern_covered(cells, drawn, patterns_spec()[k])
}

fn pattern_of_5(a: usize, b: usize, c: usize, d: usize, e: usize) -> (p: Vec<usize>)
    ensures
        p@ == seq![a, b, c, d, e],
{
    let mut p: Vec<usize> = Vec::new();
    p.push(a);
    p.push(b);
    p.push(c);
    p.push(d);
    p.push(e);
    proof {
        assert(p@ =~= seq![a, b, c, d, e]);
    }
    p
}

fn pattern_of_4(a: usize, b: usize, c: usize, d: usize) -> (p: Vec<usize>)
    ensures
        p@ == seq![a, b, c, d],
{
    let mut p: Vec<usize> = Vec::new();
    p.push(a);
    p.push(b);
    p.push(c);
    p.push(d);
    proof {
        assert(p@ =~= seq![a, b, c, d]);
    }
    p
}

/// The win-pattern catalog as executable lookup data.
pub fn patterns() -> (pats: Vec<Vec<usize>>)
    ensures
        pats@.len() == patterns_spec().len(),
        forall|k: int| 0 <= k < pats@.len() ==> pats@[k]@ == patterns_spec()[k],
        forall|k: int, j: int|
            0 <= k < pats@.len() && 0 <= j < pats@[k]@.len() ==> pats@[k]@[j] < 24,
{
    let mut pats: Vec<Vec<usize>> = Vec::new();
    pats.push(pattern_of_5(0, 1, 2, 3, 4));
    pats.push(pattern_of_5(5, 6, 7, 8, 9));
    pats.push(pattern_of_4(10, 11, 12, 13));
    pats.push(pattern_of_5(14, 15, 16, 17, 18));
    pats.push(pattern_of_5(19, 20, 21, 22, 23));
    pats.push(pattern_of_5(0, 5, 10, 14, 19));
    pats.push(pattern_of_5(1, 6, 11, 15, 20));
    pats.push(pattern_of_4(2, 7, 16, 21));
    pats.push(pattern_of_5(3, 8, 12, 17, 22));
    pats.push(pattern_of_5(4, 9, 13, 18, 23));
    pats.push(pattern_of_4(0, 6, 17, 23));
    pats.push(pattern_of_4(4, 8, 15, 19));
    proof {
        assert(pats@.len() == patterns_spec().len());
        assert(forall|k: int| 0 <= k < pats@.len() ==> pats@[k]@ =~= patterns_spec()[k]);
    }
    pats
}

/// True when `v` holds the value `x`.
pub fn contains_value(v: &Vec<u8>, x: u8) -> (r: bool)
    ensures
        r == v@.contains(x),
{
    let mut i: usize = 0;
    while i < v.len()
        invariant
            i <= v@.len(),
            forall|j: int| 0 <= j < i ==> v@[j] != x,
        decreases v@.len() - i,
    {
        if v[i] == x {
            return true;
        }
        i = i + 1;
    }
    false
}

/// True when the pattern `p` is fully covered: every cell it addresses
/// holds a drawn value.
pub fn pattern_matches(cells: &Vec<u8>, drawn: &Vec<u8>, p: &Vec<usize>) -> (r: bool)
    requires
        cells@.len() == 24,
        forall|j: int| 0 <= j < p@.len() ==> p@[j] < 24,
    ensures
        r == pattern_covered(cells@, drawn@, p@),
{
    let mut j: usize = 0;
    while j < p.len()
        invariant
            j <= p@.len(),
            cells@.len() == 24,
            forall|i: int| 0 <= i < p@.len() ==> p@[i] < 24,
            forall|i: int| 0 <= i < j ==> drawn@.contains(cells@[p@[i] as int]),
        decreases p@.len() - j,
    {
        if !contains_value(drawn, cells[p[j]]) {
            return false;
        }
        j = j + 1;
    }
    true
}

/// Evaluates the catalog in its stable order against a board and the drawn
/// values, and returns the index of the first fully covered pattern, or
/// `None` when no pattern is fully covered.
pub fn check_win(cells: &Vec<u8>, drawn: &Vec<u8>) -> (win: Option<usize>)
    requires
        cells@.len() == 24,
    ensures
        match win {
            Some(k) => {
                &&& 0 <= k < patterns_spec().len()
                &&& pattern_covered(cells@, drawn@, patterns_spec()[k as int])
                &&& forall|m: int|
                    0 <= m < k ==> !pattern_covered(cells@, drawn@, patterns_spec()[m])
            },
            None => !win_exists(cells@, drawn@),
        },
        win is Some <==> win_exists(cells@, drawn@),
{
    let pats = patterns();
    let mut k: usize = 0;
    while k < pats.len()
        invariant
            k <= pats@.len(),
            cells@.len() == 24,
            pats@.len() == patterns_spec().len(),
            forall|i: int| 0 <= i < pats@.len() ==> pats@[i]@ == patterns_spec()[i],
            forall|i: int, j: int|
                0 <= i < pats@.len() && 0 <= j < pats@[i]@.len() ==> pats@[i]@[j] < 24,
            forall|m: int| 0 <= m < k ==> !pattern_covered(cells@, drawn@, patterns_spec()[m]),
        decreases pats@.len() - k,
    {
        if pattern_matches(cells, drawn, &pats[k]) {
            return Some(k);
        }
        k = k + 1;
    }
    None
}

} // verus!
