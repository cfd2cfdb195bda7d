//! Stripping recognized global flags (and their values) from an
//! argument list, leaving the residual tokens for command-specific
//! parsing in their original relative order.

use vstd::prelude::*;
use crate::text::str_eq;
use crate::tokens::{tokens_from, tokens_of, words_of, Tok};

verus! {

/// Remove every recognized global flag — together with its value token
/// for the flags that take one — and return the remaining tokens in
/// their original relative order.
pub fn clean_args(args: &Vec<String>) -> (r: Vec<String>)
    ensures
        r.deep_view() == words_of(tokens_of(args.deep_view())),
{
    let ghost argsv = args.deep_view();
    let mut out: Vec<String> = Vec::new();
    let mut i: usize = 0;
    proof {
        assert(out.deep_view() =~= Seq::<Seq<char>>::empty());
        assert(Seq::<Seq<char>>::empty() + words_of(tokens_of(argsv)) =~= words_of(
            tokens_of(argsv),
        ));
    }
    while i < args.len()
        invariant
            i <= args.len(),
            argsv == args.deep_view(),
            words_of(tokens_of(argsv)) == out.deep_view() + words_of(tokens_from(argsv, i as int)),
        decreases args.len() - i,
    {
        let a: &str = args[i].as_str();
        let ghost prev = out.deep_view();
        if str_eq(a, "--session") || str_eq(a, "--headers") || str_eq(a, "--executable-path")
            || str_eq(a, "--cdp") || str_eq(a, "--extension") || str_eq(a, "--profile") || str_eq(
            a,
            "--state",
        ) || str_eq(a, "--proxy") || str_eq(a, "--proxy-bypass") || str_eq(a, "--args") || str_eq(
            a,
            "--user-agent",
        ) || str_eq(a, "-p") || str_eq(a, "--provider") || str_eq(a, "--device") || str_eq(
            a,
            "--session-name",
        ) || str_eq(a, "--config") {
            if i + 1 < args.len() {
                proof {
                    crate::tokens::lemma_words_of_cons(
                        Tok::Valued(argsv[i as int], argsv[i + 1]),
                        tokens_from(argsv, i + 2),
                    );
                }
                i += 2;
            } else {
                i += 1;
            }
        } else if str_eq(a, "--json") || str_eq(a, "--full") || str_eq(a, "-f") || str_eq(
            a,
            "--headed",
        ) || str_eq(a, "--debug") || str_eq(a, "--ignore-https-errors") || str_eq(
            a,
            "--allow-file-access",
        ) || str_eq(a, "--auto-connect") || str_eq(a, "--no-headed") || str_eq(a, "--no-debug")
            || str_eq(a, "--no-json") || str_eq(a, "--no-ignore-https-errors") || str_eq(
            a,
            "--no-allow-file-access",
        ) || str_eq(a, "--no-auto-connect") {
            proof {
                crate::tokens::lemma_words_of_cons(
                    Tok::Toggle(argsv[i as int]),
                    tokens_from(argsv, i + 1),
                );
            }
            i += 1;
        } else {
            out.push(args[i].clone());
            proof {
                assert(out.deep_view() =~= prev.push(argsv[i as int]));
                crate::tokens::lemma_words_of_cons(
                    Tok::Word(argsv[i as int]),
                    tokens_from(argsv, i + 1),
                );
                assert(prev.push(argsv[i as int]) + words_of(tokens_from(argsv, i + 1)) =~= prev + (
                seq![argsv[i as int]] + words_of(tokens_from(argsv, i + 1))));
            }
            i += 1;
        }
    }
    proof {
        assert(words_of(tokens_from(argsv, i as int)) == Seq::<Seq<char>>::empty());
        assert(out.deep_view() + Seq::<Seq<char>>::empty() =~= out.deep_view());
    }
    out
}

} // verus!
