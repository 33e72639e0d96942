//! The laws of the cache, stated over the same spec functions the
//! executable functions' contracts use, and proved for every input.

use vstd::prelude::*;
use crate::handler::{apply_command, spec_respond};
use crate::protocol::{
    arg_token, lemma_token_end_val, parse_command, response_text, CommandView, ResponseView,
};

verus! {

/// A `SET k v` followed by a `GET k` answers exactly v.
pub proof fn lemma_set_then_get(m: Map<Seq<char>, Seq<char>>, k: Seq<char>, v: Seq<char>)
    ensures
        apply_command(apply_command(m, CommandView::SetOp(k, v)).0, CommandView::Get(k)).1
            == ResponseView::Get(Some(v)),
{
}

/// A `DEL k` on a store that holds no entry for k answers absent and leaves
/// the store as it was; repeating it still answers absent.
pub proof fn lemma_del_absent(m: Map<Seq<char>, Seq<char>>, k: Seq<char>)
    requires
        !m.contains_key(k),
    ensures
        apply_command(m, CommandView::Del(k)).1 == ResponseView::Del(None::<Seq<char>>),
        apply_command(m, CommandView::Del(k)).0 == m,
        apply_command(apply_command(m, CommandView::Del(k)).0, CommandView::Del(k)).1
            == ResponseView::Del(None::<Seq<char>>),
{
    assert(m.remove(k) =~= m);
}

/// After a `CLR`, a `GET k` answers absent, for every previously-set k.
pub proof fn lemma_clear_then_get(m: Map<Seq<char>, Seq<char>>, k: Seq<char>)
    ensures
        apply_command(apply_command(m, CommandView::Clear).0, CommandView::Get(k)).1
            == ResponseView::Get(None::<Seq<char>>),
{
}

/// A `SET k v1` then a `SET k v2`: the second answers v1 as the previous
/// value, and a `GET k` after both answers v2 (last write wins).
pub proof fn lemma_set_twice(
    m: Map<Seq<char>, Seq<char>>,
    k: Seq<char>,
    v1: Seq<char>,
    v2: Seq<char>,
)
    ensures
        apply_command(apply_command(m, CommandView::SetOp(k, v1)).0, CommandView::SetOp(k, v2)).1
            == ResponseView::SetOp(Some(v1)),
        apply_command(apply_command(apply_command(m, CommandView::SetOp(k, v1)).0,
            CommandView::SetOp(k, v2)).0, CommandView::Get(k)).1 == ResponseView::Get(Some(v2)),
{
}

/// Commands on distinct keys leave the same store in either order: what two
/// connections do on disjoint key sets is consistent with every sequential
/// interleaving of their commands.
pub proof fn lemma_disjoint_keys_commute(
    m: Map<Seq<char>, Seq<char>>,
    c1: CommandView,
    c2: CommandView,
    k1: Seq<char>,
    k2: Seq<char>,
)
    requires
        k1 != k2,
        (c1 matches CommandView::Get(k) && k == k1) || (c1 matches CommandView::SetOp(k, _) && k
            == k1) || (c1 matches CommandView::Del(k) && k == k1),
        (c2 matches CommandView::Get(k) && k == k2) || (c2 matches CommandView::SetOp(k, _) && k
            == k2) || (c2 matches CommandView::Del(k) && k == k2),
    ensures
        apply_command(apply_command(m, c1).0, c2).0 == apply_command(apply_command(m, c2).0, c1).0,
{
    assert(apply_command(apply_command(m, c1).0, c2).0 =~= apply_command(
        apply_command(m, c2).0,
        c1,
    ).0);
}

/// Two writers racing on one key: under either sequencing of their `SET`s
/// the key ends holding one of the two written values, never a mixture.
pub proof fn lemma_racing_sets_no_torn_value(
    m: Map<Seq<char>, Seq<char>>,
    k: Seq<char>,
    va: Seq<char>,
    vb: Seq<char>,
)
    ensures
        apply_command(apply_command(m, CommandView::SetOp(k, va)).0, CommandView::SetOp(k, vb)).0[k]
            == vb,
        apply_command(apply_command(m, CommandView::SetOp(k, vb)).0, CommandView::SetOp(k, va)).0[k]
            == va,
{
}

/// An `ECHO <text>` request parses to the echo command and answers exactly
/// `ECHO <text>`, for any text without embedded spaces.
pub proof fn lemma_echo(m: Map<Seq<char>, Seq<char>>, t: Seq<char>)
    requires
        forall|j: int| 0 <= j < t.len() ==> t[j] != ' ',
    ensures
        parse_command("ECHO "@ + t) == Ok::<CommandView, crate::errors::MyError>(
            CommandView::Echo(t),
        ),
        spec_respond(m, "ECHO "@ + t) == (m, "ECHO "@ + t),
{
    reveal_strlit("ECHO ");
    reveal_strlit("ECHO");
    reveal_strlit("PING");
    let s = "ECHO "@ + t;
    assert(s.len() == 5 + t.len());
    lemma_token_end_val(s, 0, 4);
    assert(s.subrange(0, 4) =~= "ECHO"@);
    assert("ECHO"@[0] == 'E' && "PING"@[0] == 'P');
    assert(s.subrange(0, 4) != "PING"@);
    lemma_token_end_val(s, 5, s.len() as int);
    assert(arg_token(s, 4) == Some(s.subrange(5, s.len() as int)));
    assert(s.subrange(5, s.len() as int) =~= t);
    assert(response_text(ResponseView::Echo(t)) == s);
}

/// A `PING` request parses to the ping command, answers the fixed pong
/// response, and leaves the store as it was.
pub proof fn lemma_ping(m: Map<Seq<char>, Seq<char>>)
    ensures
        parse_command("PING"@) == Ok::<CommandView, crate::errors::MyError>(CommandView::Ping),
        spec_respond(m, "PING"@) == (m, "PONG"@),
{
    reveal_strlit("PING");
    let s = "PING"@;
    lemma_token_end_val(s, 0, s.len() as int);
    assert(s.subrange(0, s.len() as int) =~= s);
}

} // verus!
