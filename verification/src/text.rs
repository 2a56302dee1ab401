//! Text that the provisioner composes: decimal numbers and paths.

use vstd::prelude::*;

verus! {

/// The character that stands for the decimal digit `d`.
pub open spec fn digit(d: nat) -> char {
    if d == 0 {
        '0'
    } else if d == 1 {
        '1'
    } else if d == 2 {
        '2'
    } else if d == 3 {
        '3'
    } else if d == 4 {
        '4'
    } else if d == 5 {
        '5'
    } else if d == 6 {
        '6'
    } else if d == 7 {
        '7'
    } else if d == 8 {
        '8'
    } else {
        '9'
    }
}

/// The decimal numeral of `n`, most significant digit first, without leading
/// zeros (`0` itself is the single digit `0`).
pub open spec fn decimal(n: nat) -> Seq<char>
    decreases n,
{
    if n < 10 {
        seq![digit(n)]
    } else {
        decimal(n / 10).push(digit(n % 10))
    }
}

/// `name` placed inside the directory `dir`: the two joined by one `/`.
pub open spec fn join(dir: Seq<char>, name: Seq<char>) -> Seq<char> {
    dir + seq!['/'] + name
}

/// `path` lies strictly below `dir`: it starts with `dir` and a `/`, and at
/// least one more character follows.
pub open spec fn strictly_inside(path: Seq<char>, dir: Seq<char>) -> bool {
    (dir + seq!['/']).is_prefix_of(path) && path.len() > dir.len() + 1
}

/// Joining a non-empty name to a directory gives a path strictly below it.
pub proof fn lemma_join_strictly_inside(dir: Seq<char>, name: Seq<char>)
    requires
        name.len() > 0,
    ensures
        strictly_inside(join(dir, name), dir),
{
    let prefix = dir + seq!['/'];
    assert(join(dir, name).subrange(0, prefix.len() as int) =~= prefix);
}

fn digit_text(d: u64) -> (t: &'static str)
    requires
        d < 10,
    ensures
        t@ == seq![digit(d as nat)],
{
    proof {
        reveal_strlit("0");
        reveal_strlit("1");
        reveal_strlit("2");
        reveal_strlit("3");
        reveal_strlit("4");
        reveal_strlit("5");
        reveal_strlit("6");
        reveal_strlit("7");
        reveal_strlit("8");
        reveal_strlit("9");
    }
    let t = if d == 0 {
        "0"
    } else if d == 1 {
        "1"
    } else if d == 2 {
        "2"
    } else if d == 3 {
        "3"
    } else if d == 4 {
        "4"
    } else if d == 5 {
        "5"
    } else if d == 6 {
        "6"
    } else if d == 7 {
        "7"
    } else if d == 8 {
        "8"
    } else {
        "9"
    };
    assert(t@ =~= seq![digit(d as nat)]);
    t
}

/// Writes `n` in decimal.
pub fn decimal_string(n: u64) -> (s: String)
    ensures
        s@ == decimal(n as nat),
    decreases n,
{
    if n < 10 {
        String::from_str(digit_text(n))
    } else {
        let mut s = decimal_string(n / 10);
        s.append(digit_text(n % 10));
        assert(s@ =~= decimal(n as nat));
        s
    }
}

/// Builds the path of `name` inside `dir`.
pub fn join_path(dir: &str, name: &str) -> (p: String)
    ensures
        p@ == join(dir@, name@),
{
    proof {
        reveal_strlit("/");
    }
    let mut p = String::from_str(dir);
    p.append("/");
    p.append(name);
    assert(p@ =~= join(dir@, name@));
    p
}

} // verus!
