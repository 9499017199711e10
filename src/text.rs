use vstd::prelude::*;
use vstd::string::*;

verus! {

/// The views of a list of strings.
pub open spec fn strs(v: Seq<String>) -> Seq<Seq<char>> {
    v.map_values(|s: String| s@)
}

/// One argument when `on` holds, none otherwise.
pub open spec fn flag(on: bool, name: Seq<char>) -> Seq<Seq<char>> {
    if on {
        seq![name]
    } else {
        seq![]
    }
}

/// `prefix` joined to the value, when there is one.
pub open spec fn opt_joined(prefix: Seq<char>, o: Option<String>) -> Seq<Seq<char>> {
    match o {
        Some(v) => seq![prefix + v@],
        None => seq![],
    }
}

/// The value as an argument of its own, when there is one.
pub open spec fn opt_plain(o: Option<String>) -> Seq<Seq<char>> {
    match o {
        Some(v) => seq![v@],
        None => seq![],
    }
}

/// The name followed by the value as a separate argument, when there is one.
pub open spec fn opt_pair(name: Seq<char>, o: Option<String>) -> Seq<Seq<char>> {
    match o {
        Some(v) => seq![name, v@],
        None => seq![],
    }
}

/// `prefix` joined to each value, in order.
pub open spec fn each_joined(prefix: Seq<char>, v: Seq<String>) -> Seq<Seq<char>> {
    v.map_values(|s: String| prefix + s@)
}

/// The character of a decimal digit.
pub open spec fn digit_char(d: nat) -> char {
    if d == 0 { '0' }
    else if d == 1 { '1' }
    else if d == 2 { '2' }
    else if d == 3 { '3' }
    else if d == 4 { '4' }
    else if d == 5 { '5' }
    else if d == 6 { '6' }
    else if d == 7 { '7' }
    else if d == 8 { '8' }
    else { '9' }
}

/// The decimal notation of `n`, without leading zeros.
pub open spec fn decimal(n: nat) -> Seq<char>
    decreases n,
{
    if n < 10 {
        seq![digit_char(n)]
    } else {
        decimal(n / 10).push(digit_char(n % 10))
    }
}

pub proof fn lemma_strs_push(v: Seq<String>, s: String)
    ensures
        strs(v.push(s)) == strs(v).push(s@),
{
    assert(strs(v.push(s)) =~= strs(v).push(s@));
}

fn digit_str(d: u64) -> (r: &'static str)
    requires
        d < 10,
    ensures
        r@ == seq![digit_char(d as nat)],
{
    match d {
        0 => { proof { reveal_strlit("0"); } assert("0"@ =~= seq!['0']); "0" },
        1 => { proof { reveal_strlit("1"); } assert("1"@ =~= seq!['1']); "1" },
        2 => { proof { reveal_strlit("2"); } assert("2"@ =~= seq!['2']); "2" },
        3 => { proof { reveal_strlit("3"); } assert("3"@ =~= seq!['3']); "3" },
        4 => { proof { reveal_strlit("4"); } assert("4"@ =~= seq!['4']); "4" },
        5 => { proof { reveal_strlit("5"); } assert("5"@ =~= seq!['5']); "5" },
        6 => { proof { reveal_strlit("6"); } assert("6"@ =~= seq!['6']); "6" },
        7 => { proof { reveal_strlit("7"); } assert("7"@ =~= seq!['7']); "7" },
        8 => { proof { reveal_strlit("8"); } assert("8"@ =~= seq!['8']); "8" },
        _ => { proof { reveal_strlit("9"); } assert("9"@ =~= seq!['9']); "9" },
    }
}

/// Appends the decimal notation of `n` to `s`.
pub fn push_decimal(s: &mut String, n: u64)
    ensures
        final(s)@ == old(s)@ + decimal(n as nat),
    decreases n,
{
    if n >= 10 {
        push_decimal(s, n / 10);
    }
    let d = digit_str(n % 10);
    s.append(d);
    assert(final(s)@ =~= old(s)@ + decimal(n as nat));
}

/// A new string: `prefix` followed by `value`.
pub fn joined(prefix: &str, value: &str) -> (r: String)
    ensures
        r@ == prefix@ + value@,
{
    String::from_str(prefix).concat(value)
}

/// Appends the argument `name` when `on` holds.
pub fn push_flag(target: &mut Vec<String>, on: bool, name: &str)
    ensures
        strs(final(target)@) == strs(old(target)@) + flag(on, name@),
{
    if on {
        let ghost before = target@;
        let a = String::from_str(name);
        target.push(a);
        proof { lemma_strs_push(before, a); }
        assert(strs(target@) =~= strs(before) + flag(on, name@));
    } else {
        assert(strs(target@) =~= strs(target@) + flag(on, name@));
    }
}

/// Appends `prefix` joined to the value, when there is one.
pub fn push_opt_joined(target: &mut Vec<String>, prefix: &str, o: &Option<String>)
    ensures
        strs(final(target)@) == strs(old(target)@) + opt_joined(prefix@, *o),
{
    let ghost before = target@;
    match o {
        Some(v) => {
            let a = joined(prefix, v.as_str());
            target.push(a);
            proof { lemma_strs_push(before, a); }
            assert(strs(target@) =~= strs(before) + opt_joined(prefix@, *o));
        },
        None => {
            assert(strs(target@) =~= strs(before) + opt_joined(prefix@, *o));
        },
    }
}

/// Appends `name` and then the value, when there is one.
pub fn push_opt_pair(target: &mut Vec<String>, name: &str, o: &Option<String>)
    ensures
        strs(final(target)@) == strs(old(target)@) + opt_pair(name@, *o),
{
    let ghost before = target@;
    match o {
        Some(v) => {
            let a = String::from_str(name);
            target.push(a);
            proof { lemma_strs_push(before, a); }
            let ghost mid = target@;
            let b = v.clone();
            target.push(b);
            proof { lemma_strs_push(mid, b); }
            assert(strs(target@) =~= strs(before) + opt_pair(name@, *o));
        },
        None => {
            assert(strs(target@) =~= strs(before) + opt_pair(name@, *o));
        },
    }
}

/// Appends `prefix` joined to each value, in order.
pub fn push_each_joined(target: &mut Vec<String>, prefix: &str, values: &Vec<String>)
    ensures
        strs(final(target)@) == strs(old(target)@) + each_joined(prefix@, values@),
{
    let ghost before = target@;
    let mut i: usize = 0;
    while i < values.len()
        invariant
            i <= values@.len(),
            strs(target@) == strs(before) + each_joined(prefix@, values@.subrange(0, i as int)),
        decreases values@.len() - i,
    {
        let ghost cur = target@;
        let a = joined(prefix, values[i].as_str());
        target.push(a);
        proof {
            lemma_strs_push(cur, a);
            assert(values@.subrange(0, i + 1) =~= values@.subrange(0, i as int).push(values@[i as int]));
            assert(each_joined(prefix@, values@.subrange(0, i + 1)) =~= each_joined(prefix@, values@.subrange(0, i as int)).push(prefix@ + values@[i as int]@));
        }
        i = i + 1;
        assert(strs(target@) =~= strs(before) + each_joined(prefix@, values@.subrange(0, i as int)));
    }
    assert(values@.subrange(0, values@.len() as int) =~= values@);
}

/// Appends a copy of each value, in order.
pub fn push_all(target: &mut Vec<String>, values: &Vec<String>)
    ensures
        strs(final(target)@) == strs(old(target)@) + strs(values@),
{
    let ghost before = target@;
    let mut i: usize = 0;
    while i < values.len()
        invariant
            i <= values@.len(),
            strs(target@) == strs(before) + strs(values@.subrange(0, i as int)),
        decreases values@.len() - i,
    {
        let ghost cur = target@;
        let a = values[i].clone();
        target.push(a);
        proof {
            lemma_strs_push(cur, a);
            assert(values@.subrange(0, i + 1) =~= values@.subrange(0, i as int).push(values@[i as int]));
            lemma_strs_push(values@.subrange(0, i as int), values@[i as int]);
        }
        i = i + 1;
        assert(strs(target@) =~= strs(before) + strs(values@.subrange(0, i as int)));
    }
    assert(values@.subrange(0, values@.len() as int) =~= values@);
}

/// `prefix` joined to the decimal notation of the number, when there is one.
pub open spec fn opt_number(prefix: Seq<char>, o: Option<u64>) -> Seq<Seq<char>> {
    match o {
        Some(n) => seq![prefix + decimal(n as nat)],
        None => seq![],
    }
}

/// Appends `prefix` joined to the decimal notation of the number, when there is one.
pub fn push_opt_number(target: &mut Vec<String>, prefix: &str, o: Option<u64>)
    ensures
        strs(final(target)@) == strs(old(target)@) + opt_number(prefix@, o),
{
    let ghost before = target@;
    match o {
        Some(n) => {
            let mut a = String::from_str(prefix);
            push_decimal(&mut a, n);
            target.push(a);
            proof { lemma_strs_push(before, a); }
            assert(strs(target@) =~= strs(before) + opt_number(prefix@, o));
        },
        None => {
            assert(strs(target@) =~= strs(before) + opt_number(prefix@, o));
        },
    }
}

} // verus!
