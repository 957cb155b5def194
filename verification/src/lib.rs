//! A greeter: one operation that writes the line `Hello, world!` to a text sink.
//!
//! The sink is a `String` that the caller owns; sending it to a stream is the
//! caller's business. The contracts speak of the sink's contents as a sequence
//! of characters.

use vstd::prelude::*;
use vstd::string::StringExecFns;

verus! {

/// The greeting, without its line terminator.
pub open spec fn greeting() -> Seq<char> {
    "Hello, world!"@
}

/// What one call of [`hello`] writes: the greeting and a line feed.
pub open spec fn greeting_line() -> Seq<char> {
    greeting().push('\n')
}

/// The sink's contents after one call of [`hello`], given its contents before.
pub open spec fn after_hello(before: Seq<char>) -> Seq<char> {
    before + greeting_line()
}

/// Writes the greeting line to `out`, behind whatever `out` already holds.
///
/// There is no precondition: the call returns normally on every sink.
pub fn hello(out: &mut String)
    ensures
        final(out)@ == after_hello(old(out)@),
{
    proof {
        reveal_strlit("Hello, world!");
        reveal_strlit("Hello, world!\n");
        assert("Hello, world!\n"@ =~= greeting_line());
    }
    out.append("Hello, world!\n");
}

/// The sink's contents after `n` calls of [`hello`] in sequence, given its
/// contents before the first.
pub open spec fn after_hellos(before: Seq<char>, n: nat) -> Seq<char>
    decreases n,
{
    if n == 0 {
        before
    } else {
        after_hello(after_hellos(before, (n - 1) as nat))
    }
}

/// The greeting line is one line: fourteen characters, of which the last is a
/// line feed and no other is.
pub proof fn lemma_greeting_line_is_one_line()
    ensures
        greeting().len() == 13,
        greeting_line().len() == 14,
        greeting_line()[13] == '\n',
        forall|i: int| 0 <= i < 13 ==> greeting_line()[i] != '\n',
        greeting_line().subrange(0, 13) == greeting(),
{
    reveal_strlit("Hello, world!");
    assert(greeting_line().subrange(0, 13) =~= greeting());
}

/// One call leaves what the sink held in place and puts the greeting line,
/// and nothing else, behind it.
pub proof fn lemma_hello_writes_one_line(before: Seq<char>)
    ensures
        after_hello(before).len() == before.len() + 14,
        after_hello(before).subrange(0, before.len() as int) == before,
        after_hello(before).subrange(before.len() as int, before.len() as int + 14) == greeting_line(),
{
    lemma_greeting_line_is_one_line();
    let after = after_hello(before);
    assert(after.subrange(0, before.len() as int) =~= before);
    assert(after.subrange(before.len() as int, before.len() as int + 14) =~= greeting_line());
}

/// `n` calls in sequence leave what the sink held in place and put `n`
/// greeting lines, one after the other and nothing between them, behind it.
pub proof fn lemma_hellos_write_n_lines(before: Seq<char>, n: nat)
    ensures
        after_hellos(before, n).len() == before.len() + 14 * n,
        after_hellos(before, n).subrange(0, before.len() as int) == before,
        forall|k: int|
            0 <= k < n ==> #[trigger] after_hellos(before, n).subrange(
                before.len() + 14 * k,
                before.len() + 14 * k + 14,
            ) == greeting_line(),
    decreases n,
{
    if n > 0 {
        let m: nat = (n - 1) as nat;
        let prev = after_hellos(before, m);
        let all = after_hellos(before, n);
        lemma_hellos_write_n_lines(before, m);
        lemma_hello_writes_one_line(prev);
        assert(all.subrange(0, before.len() as int) =~= prev.subrange(0, before.len() as int));
        assert forall|k: int| 0 <= k < n implies #[trigger] all.subrange(
            before.len() + 14 * k,
            before.len() + 14 * k + 14,
        ) == greeting_line() by {
            let lo: int = before.len() + 14 * k;
            if k < m {
                assert(all.subrange(lo, lo + 14) =~= prev.subrange(lo, lo + 14));
            }
        }
    } else {
        assert(before.subrange(0, before.len() as int) =~= before);
    }
}

/// Calls add up: `m` calls and then `n` more leave what `m + n` calls leave.
pub proof fn lemma_hellos_compose(before: Seq<char>, m: nat, n: nat)
    ensures
        after_hellos(after_hellos(before, m), n) == after_hellos(before, m + n),
    decreases n,
{
    if n > 0 {
        lemma_hellos_compose(before, m, (n - 1) as nat);
        assert((m + n - 1) as nat == m + (n - 1) as nat);
    }
}

} // verus!
