//! The key list of an index determines its keys: no two different key lists
//! render to the same text.
use vstd::prelude::*;
use crate::index::{IndexColumn, IndexColumnTableColumn};
use crate::index_builder::{column_text, columns_body, columns_text, key_length_text, order_text};
use crate::render::{decimal, digit_char, quoted, text_if, Quote};

verus! {

/// `c` does not occur in `s`.
pub open spec fn lacks(s: Seq<char>, c: char) -> bool {
    forall|i: int| 0 <= i < s.len() ==> s[i] != c
}

/// A quote that the suffixes of a key never contain: a double quote or a
/// backtick on both sides.
pub open spec fn plain_quote(q: Quote) -> bool {
    q.left == q.right && (q.left == '"' || q.left == '`')
}

/// Every key is a table column whose name holds no quote character.
pub open spec fn plain_keys(q: Quote, columns: Seq<IndexColumn>) -> bool {
    forall|i: int|
        0 <= i < columns.len() ==> (#[trigger] columns[i]) is TableColumn && lacks(
            columns[i]->TableColumn_0.name@,
            q.left,
        )
}

/// What follows a key's quoted name.
pub open spec fn suffix_text(key_lengths: bool, column: IndexColumnTableColumn) -> Seq<char> {
    text_if(key_lengths, key_length_text(column.prefix)) + order_text(column.order)
}

proof fn lemma_split_at_last(c: char, x1: Seq<char>, s1: Seq<char>, x2: Seq<char>, s2: Seq<char>)
    requires
        x1 + seq![c] + s1 == x2 + seq![c] + s2,
        lacks(s1, c),
        lacks(s2, c),
    ensures
        x1 == x2,
        s1 == s2,
{
    let t = x1 + seq![c] + s1;
    let u = x2 + seq![c] + s2;
    if s1.len() < s2.len() {
        let i = t.len() - s1.len() - 1;
        assert(t[i] == c);
        assert(u[i] == s2[i - x2.len() - 1]);
    } else if s2.len() < s1.len() {
        let i = u.len() - s2.len() - 1;
        assert(u[i] == c);
        assert(t[i] == s1[i - x1.len() - 1]);
    }
    assert(x1 =~= t.subrange(0, x1.len() as int));
    assert(x2 =~= u.subrange(0, x2.len() as int));
    assert(s1 =~= t.subrange(x1.len() as int + 1, t.len() as int));
    assert(s2 =~= u.subrange(x2.len() as int + 1, u.len() as int));
}

proof fn lemma_decimal_digits(n: nat)
    ensures
        decimal(n).len() >= 1,
        forall|i: int| 0 <= i < decimal(n).len() ==> '0' <= #[trigger] decimal(n)[i] <= '9',
    decreases n,
{
    if n >= 10 {
        lemma_decimal_digits(n / 10);
    }
}

proof fn lemma_decimal_injective(m: nat, n: nat)
    requires
        decimal(m) == decimal(n),
    ensures
        m == n,
    decreases m,
{
    if m >= 10 && n >= 10 {
        lemma_decimal_injective_step(m, n);
        lemma_decimal_injective(m / 10, n / 10);
        assert(m == 10 * (m / 10) + m % 10) by (nonlinear_arith);
        assert(n == 10 * (n / 10) + n % 10) by (nonlinear_arith);
    } else if m < 10 && n < 10 {
        assert(decimal(m)[0] == digit_char(m));
        assert(decimal(n)[0] == digit_char(n));
    } else if m < 10 {
        lemma_decimal_digits(n / 10);
        assert(decimal(n).len() == decimal(n / 10).len() + 1);
    } else {
        lemma_decimal_digits(m / 10);
        assert(decimal(m).len() == decimal(m / 10).len() + 1);
    }
}

proof fn lemma_decimal_injective_step(m: nat, n: nat)
    requires
        decimal(m) == decimal(n),
        m >= 10,
        n >= 10,
    ensures
        decimal(m / 10) == decimal(n / 10),
        m % 10 == n % 10,
{
    assert(decimal(m / 10) =~= decimal(m).drop_last());
    assert(decimal(n / 10) =~= decimal(n).drop_last());
    assert(decimal(m).last() == digit_char(m % 10));
    assert(decimal(n).last() == digit_char(n % 10));
}

proof fn lemma_suffix_lacks_quote(q: Quote, key_lengths: bool, column: IndexColumnTableColumn)
    requires
        plain_quote(q),
    ensures
        lacks(suffix_text(key_lengths, column), q.left),
{
    reveal_strlit(" (");
    reveal_strlit(")");
    reveal_strlit(" ASC");
    reveal_strlit(" DESC");
    if let Some(n) = column.prefix {
        lemma_decimal_digits(n as nat);
    }
    let s = suffix_text(key_lengths, column);
    assert forall|i: int| 0 <= i < s.len() implies s[i] != q.left by {
        let k = text_if(key_lengths, key_length_text(column.prefix));
        if i >= k.len() {
            assert(s[i] == order_text(column.order)[i - k.len()]);
        } else if let Some(n) = column.prefix {
            let d = decimal(n as nat);
            assert(k == " ("@ + d + ")"@);
            if 2 <= i < 2 + d.len() {
                assert(k[i] == d[i - 2]);
            }
        }
    }
}

proof fn lemma_suffix_injective(key_lengths: bool, a: IndexColumnTableColumn, b: IndexColumnTableColumn)
    requires
        suffix_text(key_lengths, a) == suffix_text(key_lengths, b),
    ensures
        a.order == b.order,
        key_lengths ==> a.prefix == b.prefix,
{
    reveal_strlit(" (");
    reveal_strlit(")");
    reveal_strlit(" ASC");
    reveal_strlit(" DESC");
    let ka = text_if(key_lengths, key_length_text(a.prefix));
    let kb = text_if(key_lengths, key_length_text(b.prefix));
    let oa = order_text(a.order);
    let ob = order_text(b.order);
    let t = ka + oa;
    if let Some(n) = a.prefix {
        lemma_decimal_digits(n as nat);
    }
    if let Some(n) = b.prefix {
        lemma_decimal_digits(n as nat);
    }
    assert(ka.len() > 0 ==> ka.last() == ')');
    assert(kb.len() > 0 ==> kb.last() == ')');
    if a.order != b.order {
        if oa.len() > 0 {
            assert(t.last() == oa.last());
        }
        if ob.len() > 0 {
            assert((kb + ob).last() == ob.last());
        }
        if oa.len() > 0 && ob.len() > 0 {
            assert(t[t.len() - 4] == oa[oa.len() - 4]);
            assert((kb + ob)[t.len() - 4] == ob[ob.len() - 4]);
        }
        if oa.len() == 0 && ka.len() > 0 {
            assert(t.last() == ka.last());
        }
        if ob.len() == 0 && kb.len() > 0 {
            assert((kb + ob).last() == kb.last());
        }
        assert(false);
    }
    assert(ka =~= t.subrange(0, ka.len() as int));
    assert(kb =~= (kb + ob).subrange(0, kb.len() as int));
    if key_lengths {
        if let Some(m) = a.prefix {
            if let Some(n) = b.prefix {
                let dm = decimal(m as nat);
                let dn = decimal(n as nat);
                assert(dm =~= ka.subrange(2, ka.len() - 1));
                assert(dn =~= kb.subrange(2, kb.len() - 1));
                lemma_decimal_injective(m as nat, n as nat);
            }
        }
    }
}

proof fn lemma_key_split(q: Quote, key_lengths: bool, columns: Seq<IndexColumn>)
    requires
        columns.len() > 0,
        plain_keys(q, columns),
    ensures
        ({
            let c = columns.last()->TableColumn_0;
            let before = if columns.len() == 1 {
                Seq::empty()
            } else {
                columns_body(q, key_lengths, columns.drop_last()) + ", "@
            };
            columns_body(q, key_lengths, columns) == before + seq![q.left] + c.name@ + seq![q.right]
                + suffix_text(key_lengths, c)
        }),
{
    assert(columns[columns.len() - 1] is TableColumn);
    if columns.len() == 1 {
        assert(columns[0] == columns.last());
    }
    let c = columns.last()->TableColumn_0;
    assert(column_text(q, key_lengths, c) =~= seq![q.left] + c.name@ + seq![q.right] + suffix_text(
        key_lengths,
        c,
    ));
    if columns.len() > 1 {
        let b = columns_body(q, key_lengths, columns.drop_last()) + ", "@;
        assert(b + column_text(q, key_lengths, c) =~= b + seq![q.left] + c.name@ + seq![q.right]
            + suffix_text(key_lengths, c));
    } else {
        assert(Seq::<char>::empty() + column_text(q, key_lengths, c) =~= column_text(q, key_lengths, c));
    }
}

/// Two key lists with names free of the quote character that render to the same
/// key list are the same keys, in the same order: same names, same directions,
/// and the same lengths where the dialect writes them.
pub proof fn lemma_columns_recoverable(
    q: Quote,
    key_lengths: bool,
    a: Seq<IndexColumn>,
    b: Seq<IndexColumn>,
)
    requires
        plain_quote(q),
        plain_keys(q, a),
        plain_keys(q, b),
        columns_text(q, key_lengths, a) == columns_text(q, key_lengths, b),
    ensures
        a.len() == b.len(),
        forall|i: int|
            0 <= i < a.len() ==> (#[trigger] a[i])->TableColumn_0.name@ == b[i]->TableColumn_0.name@
                && a[i]->TableColumn_0.order == b[i]->TableColumn_0.order && (key_lengths
                ==> a[i]->TableColumn_0.prefix == b[i]->TableColumn_0.prefix),
    decreases a.len(),
{
    reveal_strlit("(");
    reveal_strlit(")");
    let ta = columns_text(q, key_lengths, a);
    assert(columns_body(q, key_lengths, a) =~= ta.subrange(1, ta.len() - 1));
    assert(columns_body(q, key_lengths, b) =~= ta.subrange(1, ta.len() - 1));
    lemma_bodies_recoverable(q, key_lengths, a, b);
}

proof fn lemma_bodies_recoverable(q: Quote, key_lengths: bool, a: Seq<IndexColumn>, b: Seq<IndexColumn>)
    requires
        plain_quote(q),
        plain_keys(q, a),
        plain_keys(q, b),
        columns_body(q, key_lengths, a) == columns_body(q, key_lengths, b),
    ensures
        a.len() == b.len(),
        forall|i: int|
            0 <= i < a.len() ==> (#[trigger] a[i])->TableColumn_0.name@ == b[i]->TableColumn_0.name@
                && a[i]->TableColumn_0.order == b[i]->TableColumn_0.order && (key_lengths
                ==> a[i]->TableColumn_0.prefix == b[i]->TableColumn_0.prefix),
    decreases a.len(),
{
    reveal_strlit(", ");
    if a.len() == 0 || b.len() == 0 {
        if a.len() > 0 {
            lemma_key_split(q, key_lengths, a);
        }
        if b.len() > 0 {
            lemma_key_split(q, key_lengths, b);
        }
        return;
    }
    lemma_key_split(q, key_lengths, a);
    lemma_key_split(q, key_lengths, b);
    let ca = a.last()->TableColumn_0;
    let cb = b.last()->TableColumn_0;
    assert(a[a.len() - 1] is TableColumn);
    assert(b[b.len() - 1] is TableColumn);
    let pa = if a.len() == 1 {
        Seq::empty()
    } else {
        columns_body(q, key_lengths, a.drop_last()) + ", "@
    };
    let pb = if b.len() == 1 {
        Seq::empty()
    } else {
        columns_body(q, key_lengths, b.drop_last()) + ", "@
    };
    lemma_suffix_lacks_quote(q, key_lengths, ca);
    lemma_suffix_lacks_quote(q, key_lengths, cb);
    lemma_split_at_last(
        q.left,
        pa + seq![q.left] + ca.name@,
        suffix_text(key_lengths, ca),
        pb + seq![q.left] + cb.name@,
        suffix_text(key_lengths, cb),
    );
    lemma_split_at_last(q.left, pa, ca.name@, pb, cb.name@);
    lemma_suffix_injective(key_lengths, ca, cb);
    if a.len() == 1 && b.len() > 1 {
        assert(pb.len() > 0);
        assert(false);
    }
    if b.len() == 1 && a.len() > 1 {
        assert(pa.len() > 0);
        assert(false);
    }
    if a.len() > 1 {
        let ba = columns_body(q, key_lengths, a.drop_last());
        let bb = columns_body(q, key_lengths, b.drop_last());
        assert(ba =~= pa.subrange(0, pa.len() - 2));
        assert(bb =~= pb.subrange(0, pb.len() - 2));
        assert(plain_keys(q, a.drop_last()));
        assert(plain_keys(q, b.drop_last()));
        lemma_bodies_recoverable(q, key_lengths, a.drop_last(), b.drop_last());
        assert forall|i: int| 0 <= i < a.len() implies (#[trigger] a[i])->TableColumn_0.name@
            == b[i]->TableColumn_0.name@ && a[i]->TableColumn_0.order == b[i]->TableColumn_0.order
            && (key_lengths ==> a[i]->TableColumn_0.prefix == b[i]->TableColumn_0.prefix) by {
            if i < a.len() - 1 {
                assert(a[i] == a.drop_last()[i]);
                assert(b[i] == b.drop_last()[i]);
            }
        }
    }
}

} // verus!
