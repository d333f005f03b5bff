use vstd::prelude::*;

verus! {

/// The character sequences of a list of strings.
pub open spec fn views(v: Seq<String>) -> Seq<Seq<char>> {
    v.map_values(|s: String| s@)
}

/// The words joined by single spaces.
pub open spec fn join_words(s: Seq<Seq<char>>) -> Seq<char>
    decreases s.len(),
{
    if s.len() == 0 {
        Seq::empty()
    } else if s.len() == 1 {
        s[0]
    } else {
        join_words(s.drop_last()) + seq![' '] + s.last()
    }
}

/// Appends a copy of `s` to the argument list.
pub fn push_str(v: &mut Vec<String>, s: &str)
    ensures
        views(final(v)@) == views(old(v)@).push(s@),
{
    v.push(String::from_str(s));
    assert(views(final(v)@) =~= views(old(v)@).push(s@));
}

/// Appends `s` to the argument list.
pub fn push_string(v: &mut Vec<String>, s: String)
    ensures
        views(final(v)@) == views(old(v)@).push(s@),
{
    v.push(s);
    assert(views(final(v)@) =~= views(old(v)@).push(s@));
}

/// Appends the option's value, if any, after the flag `flag`.
pub fn push_flag_value(v: &mut Vec<String>, flag: &str, value: &Option<String>)
    ensures
        views(final(v)@) == views(old(v)@) + flag_value(flag@, *value),
{
    match value {
        None => {
            assert(views(old(v)@) + flag_value(flag@, *value) =~= views(old(v)@));
        },
        Some(x) => {
            push_str(v, flag);
            push_string(v, x.clone());
            assert(views(final(v)@) =~= views(old(v)@) + flag_value(flag@, *value));
        },
    }
}

/// The pair `flag value` where the option holds a value, nothing otherwise.
pub open spec fn flag_value(flag: Seq<char>, value: Option<String>) -> Seq<Seq<char>> {
    match value {
        Some(x) => seq![flag, x@],
        None => Seq::empty(),
    }
}

/// Joins the words of a command line with single spaces.
pub fn join_with_spaces(words: &Vec<String>) -> (r: String)
    ensures
        r@ == join_words(views(words@)),
{
    let mut r = String::new();
    let n = words.len();
    let mut i: usize = 0;
    while i < n
        invariant
            n == words@.len(),
            0 <= i <= n,
            r@ == join_words(views(words@.subrange(0, i as int))),
        decreases n - i,
    {
        let ghost before = views(words@.subrange(0, i as int));
        let ghost after = views(words@.subrange(0, i as int + 1));
        assert(after.drop_last() =~= before);
        assert(after.last() == words@[i as int]@);
        if i > 0 {
            r.append(" ");
            proof {
                reveal_strlit(" ");
            }
            assert(r@ =~= join_words(before) + seq![' ']);
        } else {
            assert(before.len() == 0);
        }
        let ghost prev = r@;
        r.append(words[i].as_str());
        if i > 0 {
            assert(r@ =~= prev + words@[i as int]@);
            assert(join_words(after) == join_words(before) + seq![' '] + after.last());
            assert(r@ =~= join_words(after));
        } else {
            assert(after.len() == 1);
            assert(r@ =~= join_words(after));
        }
        i = i + 1;
    }
    assert(words@.subrange(0, n as int) =~= words@);
    r
}

} // verus!
