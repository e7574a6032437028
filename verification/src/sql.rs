//! The SQL `INSERT` statements that records are stored with: the values are
//! quoted and joined into the statement's `VALUES` list as they are, without
//! escaping.

use vstd::prelude::*;
use crate::text::{
    decimal,
    is_digit,
    lemma_decimal_parses,
    lemma_split_concat,
    lemma_split_nonempty,
    lemma_split_whole,
    split_text,
};

verus! {

/// The values list of an `INSERT`: each value in single quotes, separated by
/// `", "`.
pub open spec fn quoted_values(vals: Seq<Seq<char>>) -> Seq<char>
    decreases vals.len(),
{
    if vals.len() == 0 {
        Seq::empty()
    } else if vals.len() == 1 {
        "'"@ + vals[0] + "'"@
    } else {
        quoted_values(vals.drop_last()) + ", '"@ + vals.last() + "'"@
    }
}

/// The statement `head` (which ends in `VALUES (`), the quoted values, and
/// the closing parenthesis.
pub open spec fn insert_sql(head: Seq<char>, vals: Seq<Seq<char>>) -> Seq<char> {
    head + quoted_values(vals) + ")"@
}

/// `s` holds no single quote.
pub open spec fn no_quote(s: Seq<char>) -> bool {
    !s.contains('\'')
}

/// A number's decimal rendering holds no single quote.
pub proof fn lemma_decimal_unquoted(n: nat)
    ensures
        no_quote(decimal(n)),
{
    lemma_decimal_parses(n);
    if decimal(n).contains('\'') {
        let k = choose|k: int| 0 <= k < decimal(n).len() && decimal(n)[k] == '\'';
        assert(is_digit(decimal(n)[k]));
    }
}

/// The values that an `INSERT` statement lists after `head`: the text
/// between `head` and the closing parenthesis is cut at single quotes, and
/// every second piece is a value.
pub open spec fn sql_values(sql: Seq<char>, head: Seq<char>) -> Seq<Seq<char>> {
    let pieces = split_text(sql.subrange(head.len() as int, sql.len() - 1), '\'');
    Seq::new(((pieces.len() - 1) / 2) as nat, |i: int| pieces[2 * i + 1])
}

/// The values list of the first `m` values starts the values list of all of
/// them.
proof fn lemma_quoted_prefix(vals: Seq<Seq<char>>, m: int)
    requires
        0 <= m <= vals.len(),
    ensures
        quoted_values(vals.take(m)).len() <= quoted_values(vals).len(),
        quoted_values(vals) == quoted_values(vals.take(m)) + quoted_values(vals).skip(
            quoted_values(vals.take(m)).len() as int,
        ),
    decreases vals.len(),
{
    let a = quoted_values(vals.take(m));
    let q = quoted_values(vals);
    if m == vals.len() {
        assert(vals.take(m) =~= vals);
        assert(q =~= a + q.skip(a.len() as int));
    } else if vals.len() == 1 {
        assert(vals.take(m) =~= Seq::<Seq<char>>::empty());
        assert(q =~= a + q.skip(a.len() as int));
    } else {
        let d = vals.drop_last();
        lemma_quoted_prefix(d, m);
        assert(d.take(m) =~= vals.take(m));
        let qd = quoted_values(d);
        let tail = ", '"@ + vals.last() + "'"@;
        assert(q == qd + tail);
        assert(qd == a + qd.skip(a.len() as int));
        assert(q =~= a + q.skip(a.len() as int));
    }
}

/// A values list of at least one value ends in a single quote.
proof fn lemma_quoted_closed(vals: Seq<Seq<char>>)
    requires
        vals.len() >= 1,
    ensures
        quoted_values(vals).len() >= 1,
        quoted_values(vals).last() == '\'',
{
    reveal_strlit("'");
    if vals.len() == 1 {
        assert(quoted_values(vals) == "'"@ + vals[0] + "'"@);
    } else {
        assert(quoted_values(vals) == quoted_values(vals.drop_last()) + ", '"@ + vals.last()
            + "'"@);
    }
}

/// Cut at single quotes, the text that follows a quoted value and holds the
/// next one gives the separator, the value, and an empty piece.
proof fn lemma_tail_pieces(v: Seq<char>)
    requires
        no_quote(v),
    ensures
        split_text(", '"@ + v + "'"@, '\'') == seq![seq![',', ' '], v, Seq::<char>::empty()],
{
    reveal_strlit("'");
    reveal_strlit(", '");
    let e = Seq::<char>::empty();
    let sep_text = seq![',', ' '];
    assert(", '"@ + v + "'"@ =~= sep_text.push('\'') + (v.push('\'') + e));
    lemma_split_concat(sep_text, v.push('\'') + e, '\'');
    assert(v.push('\'') + e =~= v.push('\''));
    lemma_split_concat(v, e, '\'');
    assert(!sep_text.contains('\'')) by {
        if sep_text.contains('\'') {
            let k = choose|k: int| 0 <= k < sep_text.len() && sep_text[k] == '\'';
            assert(sep_text[k] == '\'');
        }
    }
    lemma_split_whole(sep_text, '\'');
    lemma_split_whole(v, '\'');
    assert(split_text(e, '\'') =~= seq![e]);
}

/// Cut at single quotes, the values list of quote-free values gives an empty
/// piece, then each value followed by the piece between it and the next one.
proof fn lemma_quoted_pieces(vals: Seq<Seq<char>>)
    requires
        vals.len() >= 1,
        forall|j: int| 0 <= j < vals.len() ==> no_quote(#[trigger] vals[j]),
    ensures
        split_text(quoted_values(vals), '\'').len() == 2 * vals.len() + 1,
        forall|i: int|
            0 <= i < vals.len() ==> #[trigger] split_text(quoted_values(vals), '\'')[2 * i + 1]
                == vals[i],
    decreases vals.len(),
{
    reveal_strlit("'");
    let n = vals.len();
    let v = vals.last();
    assert(no_quote(vals[n - 1]));
    let e = Seq::<char>::empty();
    if n == 1 {
        lemma_split_whole(v, '\'');
        lemma_split_concat(v, e, '\'');
        assert(v.push('\'') + e =~= v.push('\''));
        assert(split_text(e, '\'') =~= seq![e]);
        assert(quoted_values(vals) =~= e.push('\'') + v.push('\''));
        lemma_split_concat(e, v.push('\''), '\'');
        assert(split_text(quoted_values(vals), '\'') =~= seq![e, v, e]);
    } else {
        let d = vals.drop_last();
        assert forall|j: int| 0 <= j < d.len() implies no_quote(#[trigger] d[j]) by {
            assert(d[j] == vals[j]);
        }
        lemma_quoted_pieces(d);
        let qd = quoted_values(d);
        lemma_quoted_closed(d);
        let x = qd.drop_last();
        assert(x.push('\'') =~= qd);
        let tail = ", '"@ + v + "'"@;
        lemma_tail_pieces(v);
        assert(quoted_values(vals) =~= x.push('\'') + tail);
        lemma_split_concat(x, tail, '\'');
        lemma_split_concat(x, e, '\'');
        assert(x.push('\'') + e =~= qd);
        assert(split_text(e, '\'') =~= seq![e]);
        let px = split_text(x, '\'');
        assert(px =~= split_text(qd, '\'').drop_last());
        assert forall|i: int| 0 <= i < n implies #[trigger] split_text(
            quoted_values(vals),
            '\'',
        )[2 * i + 1] == vals[i] by {
            if i < n - 1 {
                assert(split_text(qd, '\'')[2 * i + 1] == d[i]);
            }
        }
    }
}

/// Reading a value back out of an `INSERT` statement gives the value that
/// was written in its place, as long as neither it nor any value before it
/// holds a single quote (values are written without escaping).
pub proof fn lemma_insert_value(head: Seq<char>, vals: Seq<Seq<char>>, k: int)
    requires
        0 <= k < vals.len(),
        forall|j: int| 0 <= j <= k ==> no_quote(#[trigger] vals[j]),
    ensures
        k < sql_values(insert_sql(head, vals), head).len(),
        sql_values(insert_sql(head, vals), head)[k] == vals[k],
{
    reveal_strlit(")");
    reveal_strlit("'");
    let sql = insert_sql(head, vals);
    let q = quoted_values(vals);
    assert(sql.subrange(head.len() as int, sql.len() - 1) =~= q);
    let m = k + 1;
    let w = vals.take(m);
    assert forall|j: int| 0 <= j < w.len() implies no_quote(#[trigger] w[j]) by {
        assert(w[j] == vals[j]);
    }
    lemma_quoted_pieces(w);
    lemma_quoted_prefix(vals, m);
    let a = quoted_values(w);
    let r = q.skip(a.len() as int);
    lemma_quoted_closed(w);
    let x = a.drop_last();
    assert(x.push('\'') =~= a);
    assert(q =~= x.push('\'') + r);
    lemma_split_concat(x, r, '\'');
    let e = Seq::<char>::empty();
    assert(split_text(a, '\'') == split_text(x, '\'') + split_text(e, '\'')) by {
        lemma_split_concat(x, e, '\'');
        assert(x.push('\'') + e =~= a);
    }
    assert(split_text(e, '\'') =~= seq![e]);
    lemma_split_nonempty(r, '\'');
    let px = split_text(x, '\'');
    assert(px.len() == 2 * m);
    assert(split_text(a, '\'')[2 * k + 1] == w[k]);
    assert(px[2 * k + 1] == vals[k]);
    assert(split_text(q, '\'')[2 * k + 1] == vals[k]);
}

/// An `INSERT` statement of values that hold no single quote reads back as
/// exactly those values.
pub proof fn lemma_insert_reads_back(head: Seq<char>, vals: Seq<Seq<char>>)
    requires
        forall|j: int| 0 <= j < vals.len() ==> no_quote(#[trigger] vals[j]),
    ensures
        sql_values(insert_sql(head, vals), head) == vals,
{
    reveal_strlit(")");
    let sql = insert_sql(head, vals);
    let q = quoted_values(vals);
    assert(sql.subrange(head.len() as int, sql.len() - 1) =~= q);
    if vals.len() == 0 {
        assert(q =~= Seq::<char>::empty());
        assert(split_text(q, '\'') =~= seq![Seq::<char>::empty()]);
        assert(sql_values(sql, head) =~= vals);
    } else {
        lemma_quoted_pieces(vals);
        assert(sql_values(sql, head) =~= vals);
    }
}

/// Builds the `INSERT` statement for `values` after `head`.
pub fn insert_statement(head: &str, values: &Vec<String>) -> (res: String)
    ensures
        res@ == insert_sql(head@, values.deep_view()),
{
    let ghost dv = values.deep_view();
    let mut s = head.to_owned();
    let n = values.len();
    let mut i: usize = 0;
    assert(dv.take(0) =~= Seq::<Seq<char>>::empty());
    assert(s@ =~= head@ + quoted_values(dv.take(0)));
    while i < n
        invariant
            n == values@.len(),
            dv == values.deep_view(),
            i <= n,
            s@ == head@ + quoted_values(dv.take(i as int)),
        decreases n - i,
    {
        let ghost before = s@;
        assert(dv[i as int] == values@[i as int]@);
        if i == 0 {
            s.append("'");
            s.append(values[i].as_str());
            s.append("'");
            assert(dv.take(1) =~= seq![dv[0]]);
            assert(s@ =~= head@ + quoted_values(dv.take(1)));
        } else {
            s.append(", '");
            s.append(values[i].as_str());
            s.append("'");
            assert(dv.take(i + 1).drop_last() =~= dv.take(i as int));
            assert(dv.take(i + 1).last() == dv[i as int]);
            assert(s@ =~= head@ + quoted_values(dv.take(i + 1)));
        }
        i += 1;
    }
    assert(dv.take(n as int) =~= dv);
    s.append(")");
    s
}

} // verus!
