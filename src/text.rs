use vstd::prelude::*;

verus! {

/// Decimal digits of a natural number, most significant first.
pub open spec fn decimal(n: nat) -> Seq<char>
    decreases n,
{
    if n < 10 {
        seq![digit_char(n)]
    } else {
        decimal(n / 10).push(digit_char(n % 10))
    }
}

pub open spec fn digit_char(d: nat) -> char {
    if d == 0 { '0' } else if d == 1 { '1' } else if d == 2 { '2' } else if d == 3 { '3' }
    else if d == 4 { '4' } else if d == 5 { '5' } else if d == 6 { '6' } else if d == 7 { '7' }
    else if d == 8 { '8' } else { '9' }
}

fn digit_str(d: usize) -> (r: &'static str)
    requires
        d < 10,
    ensures
        r@ == seq![digit_char(d as nat)],
{
    proof {
        reveal_strlit("0");
        reveal_strlit("1");
        reveal_strlit("2");
        reveal_strlit("3");
        reveal_strlit("4");
        reveal_strlit("5");
        reveal_strlit("6");
        reveal_strlit("7");
        reveal_strlit("8");
        reveal_strlit("9");
    }
    if d == 0 { "0" } else if d == 1 { "1" } else if d == 2 { "2" } else if d == 3 { "3" }
    else if d == 4 { "4" } else if d == 5 { "5" } else if d == 6 { "6" } else if d == 7 { "7" }
    else if d == 8 { "8" } else { "9" }
}

/// Appends the decimal digits of `n` to `out`.
pub fn push_decimal(out: &mut String, n: usize)
    ensures
        final(out)@ == old(out)@ + decimal(n as nat),
    decreases n,
{
    if n < 10 {
        out.append(digit_str(n));
    } else {
        push_decimal(out, n / 10);
        out.append(digit_str(n % 10));
    }
}


/// Placeholder text for the `n`-th bound parameter: `$n`.
pub open spec fn placeholder(n: nat) -> Seq<char> {
    "$"@ + decimal(n)
}

/// The views of a sequence of strings.
pub open spec fn views(v: Seq<String>) -> Seq<Seq<char>> {
    Seq::new(v.len(), |i: int| v[i]@)
}

/// `items` separated by `sep`.
pub open spec fn joined(items: Seq<Seq<char>>, sep: Seq<char>) -> Seq<char>
    decreases items.len(),
{
    if items.len() == 0 {
        Seq::empty()
    } else if items.len() == 1 {
        items[0]
    } else {
        joined(items.drop_last(), sep) + sep + items.last()
    }
}

/// Columns paired with the placeholder numbers `offset + 1`, `offset + 2`, ...
pub open spec fn numbered(cols: Seq<Seq<char>>, offset: nat) -> Seq<(Seq<char>, nat)> {
    Seq::new(cols.len(), |i: int| (cols[i], (offset + i + 1) as nat))
}

/// `column = $n` for each slot.
pub open spec fn eq_texts(slots: Seq<(Seq<char>, nat)>) -> Seq<Seq<char>> {
    Seq::new(slots.len(), |i: int| slots[i].0 + " = "@ + placeholder(slots[i].1))
}

/// `$n` for each slot.
pub open spec fn placeholder_texts(slots: Seq<(Seq<char>, nat)>) -> Seq<Seq<char>> {
    Seq::new(slots.len(), |i: int| placeholder(slots[i].1))
}

/// `column = EXCLUDED.column` for each column.
pub open spec fn excluded_texts(cols: Seq<Seq<char>>) -> Seq<Seq<char>> {
    Seq::new(cols.len(), |i: int| cols[i] + " = EXCLUDED."@ + cols[i])
}

proof fn lemma_joined_take(items: Seq<Seq<char>>, sep: Seq<char>, i: int)
    requires
        0 <= i < items.len(),
    ensures
        joined(items.take(i + 1), sep) == if i == 0 {
            items[0]
        } else {
            joined(items.take(i), sep) + sep + items[i]
        },
{
    assert(items.take(i + 1).drop_last() =~= items.take(i));
}

/// Appends `items` separated by `sep`.
pub fn push_joined(out: &mut String, items: &Vec<String>, sep: &str)
    ensures
        final(out)@ == old(out)@ + joined(views(items@), sep@),
{
    let ghost start = out@;
    let ghost all = views(items@);
    let mut i: usize = 0;
    while i < items.len()
        invariant
            i <= items.len(),
            all == views(items@),
            out@ == start + joined(all.take(i as int), sep@),
        decreases items.len() - i,
    {
        proof {
            lemma_joined_take(all, sep@, i as int);
        }
        if i > 0 {
            out.append(sep);
        }
        out.append(items[i].as_str());
        i = i + 1;
    }
    assert(all.take(items.len() as int) =~= all);
}

/// Appends `column = $n` for each column, numbered from `offset + 1`, separated by `sep`.
pub fn push_eq_list(out: &mut String, cols: &Vec<String>, offset: usize, sep: &str)
    requires
        offset + cols.len() <= usize::MAX,
    ensures
        final(out)@ == old(out)@ + joined(eq_texts(numbered(views(cols@), offset as nat)), sep@),
{
    let ghost start = out@;
    let ghost all = eq_texts(numbered(views(cols@), offset as nat));
    let mut i: usize = 0;
    while i < cols.len()
        invariant
            i <= cols.len(),
            offset + cols.len() <= usize::MAX,
            all == eq_texts(numbered(views(cols@), offset as nat)),
            out@ == start + joined(all.take(i as int), sep@),
        decreases cols.len() - i,
    {
        proof {
            lemma_joined_take(all, sep@, i as int);
        }
        if i > 0 {
            out.append(sep);
        }
        out.append(cols[i].as_str());
        out.append(" = ");
        out.append("$");
        push_decimal(out, offset + i + 1);
        proof {
            assert(all[i as int] == cols@[i as int]@ + " = "@ + ("$"@ + decimal((offset + i + 1) as nat)));
        }
        i = i + 1;
    }
    assert(all.take(cols.len() as int) =~= all);
}

/// Appends `$1, $2, ...`, one placeholder for each column, separated by `sep`.
pub fn push_placeholder_list(out: &mut String, cols: &Vec<String>, sep: &str)
    ensures
        final(out)@ == old(out)@ + joined(placeholder_texts(numbered(views(cols@), 0)), sep@),
{
    let ghost start = out@;
    let ghost all = placeholder_texts(numbered(views(cols@), 0));
    let mut i: usize = 0;
    while i < cols.len()
        invariant
            i <= cols.len(),
            all == placeholder_texts(numbered(views(cols@), 0)),
            out@ == start + joined(all.take(i as int), sep@),
        decreases cols.len() - i,
    {
        proof {
            lemma_joined_take(all, sep@, i as int);
        }
        if i > 0 {
            out.append(sep);
        }
        out.append("$");
        push_decimal(out, i + 1);
        i = i + 1;
    }
    assert(all.take(cols.len() as int) =~= all);
}

/// Appends `column = EXCLUDED.column` for each column, separated by `sep`.
pub fn push_excluded_list(out: &mut String, cols: &Vec<String>, sep: &str)
    ensures
        final(out)@ == old(out)@ + joined(excluded_texts(views(cols@)), sep@),
{
    let ghost start = out@;
    let ghost all = excluded_texts(views(cols@));
    let mut i: usize = 0;
    while i < cols.len()
        invariant
            i <= cols.len(),
            all == excluded_texts(views(cols@)),
            out@ == start + joined(all.take(i as int), sep@),
        decreases cols.len() - i,
    {
        proof {
            lemma_joined_take(all, sep@, i as int);
        }
        if i > 0 {
            out.append(sep);
        }
        out.append(cols[i].as_str());
        out.append(" = EXCLUDED.");
        out.append(cols[i].as_str());
        i = i + 1;
    }
    assert(all.take(cols.len() as int) =~= all);
}

} // verus!
