//! The shared reading of a raw argument list: which tokens are global
//! flags, which consume the following token as their value, and which
//! pass through untouched.
//!
//! Classification is purely positional: the token after a recognized
//! value-flag is always that flag's value, even when it looks like a
//! flag itself, and a value-flag standing last (its value missing) is
//! a no-op.

use vstd::prelude::*;

verus! {

/// One recognized unit of the argument list.
pub ghost enum Tok {
    /// A global flag with no value.
    Toggle(Seq<char>),
    /// A global flag together with the token it consumed.
    Valued(Seq<char>, Seq<char>),
    /// Anything else: commands and command-specific arguments.
    Word(Seq<char>),
}

/// The global flags that take no value.
pub open spec fn is_toggle_flag(t: Seq<char>) -> bool {
    ||| t == "--json"@
    ||| t == "--full"@
    ||| t == "-f"@
    ||| t == "--headed"@
    ||| t == "--debug"@
    ||| t == "--ignore-https-errors"@
    ||| t == "--allow-file-access"@
    ||| t == "--auto-connect"@
    ||| t == "--no-headed"@
    ||| t == "--no-debug"@
    ||| t == "--no-json"@
    ||| t == "--no-ignore-https-errors"@
    ||| t == "--no-allow-file-access"@
    ||| t == "--no-auto-connect"@
}

/// The global flags that consume exactly one following value token.
pub open spec fn is_value_flag(t: Seq<char>) -> bool {
    ||| t == "--session"@
    ||| t == "--headers"@
    ||| t == "--executable-path"@
    ||| t == "--cdp"@
    ||| t == "--extension"@
    ||| t == "--profile"@
    ||| t == "--state"@
    ||| t == "--proxy"@
    ||| t == "--proxy-bypass"@
    ||| t == "--args"@
    ||| t == "--user-agent"@
    ||| t == "-p"@
    ||| t == "--provider"@
    ||| t == "--device"@
    ||| t == "--session-name"@
    ||| t == "--config"@
}

/// The token stream of the argument list from position `i` on: a
/// value-flag consumes the next token (or vanishes when none follows),
/// a toggle stands alone, and everything else is a plain word.
pub open spec fn tokens_from(args: Seq<Seq<char>>, i: int) -> Seq<Tok>
    decreases args.len() - i,
{
    if i < 0 || i >= args.len() {
        Seq::<Tok>::empty()
    } else if is_value_flag(args[i]) {
        if i + 1 < args.len() {
            seq![Tok::Valued(args[i], args[i + 1])] + tokens_from(args, i + 2)
        } else {
            Seq::<Tok>::empty()
        }
    } else if is_toggle_flag(args[i]) {
        seq![Tok::Toggle(args[i])] + tokens_from(args, i + 1)
    } else {
        seq![Tok::Word(args[i])] + tokens_from(args, i + 1)
    }
}

/// The token stream of the whole argument list.
pub open spec fn tokens_of(args: Seq<Seq<char>>) -> Seq<Tok> {
    tokens_from(args, 0)
}

/// The plain words of a token stream, in order: what remains once every
/// recognized global flag (and its value) is gone.
pub open spec fn words_of(toks: Seq<Tok>) -> Seq<Seq<char>>
    decreases toks.len(),
{
    if toks.len() == 0 {
        Seq::<Seq<char>>::empty()
    } else {
        let rest = words_of(toks.drop_first());
        match toks.first() {
            Tok::Word(w) => seq![w] + rest,
            _ => rest,
        }
    }
}

/// How `words_of` treats one leading token.
pub proof fn lemma_words_of_cons(t: Tok, rest: Seq<Tok>)
    ensures
        words_of(seq![t] + rest) == (match t {
            Tok::Word(w) => seq![w] + words_of(rest),
            _ => words_of(rest),
        }),
{
    assert((seq![t] + rest).first() == t);
    assert((seq![t] + rest).drop_first() =~= rest);
}

} // verus!
