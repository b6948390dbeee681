//! The command line as a list of arguments from which options are taken one by one.

use vstd::prelude::*;

verus! {

/// A command line that `pico_args` takes options from.
#[verifier::external_type_specification]
#[verifier::external_body]
pub struct ExArguments(pico_args::Arguments);

/// The arguments that a list still holds, in order.
pub uninterp spec fn argument_list(args: pico_args::Arguments) -> Seq<Seq<char>>;

/// The texts of a vector of strings.
pub open spec fn texts(v: Seq<String>) -> Seq<Seq<char>> {
    Seq::new(v.len(), |i: int| v[i]@)
}

/// Where an argument stands first; the length of the list where it does not stand at all.
pub open spec fn position(args: Seq<Seq<char>>, key: Seq<char>) -> nat
    decreases args.len(),
{
    if args.len() == 0 || args[0] == key {
        0
    } else {
        1 + position(args.drop_first(), key)
    }
}

/// Whether a flag stands in the list, and the list without its first occurrence.
pub open spec fn take_flag(args: Seq<Seq<char>>, key: Seq<char>) -> (bool, Seq<Seq<char>>) {
    let i = position(args, key);
    if i < args.len() {
        (true, args.remove(i as int))
    } else {
        (false, args)
    }
}

/// The number that follows an option, and the list without the two.
///
/// Without the option there is no number. An option at the end of the list, and one followed by
/// something that is no number, are errors.
pub open spec fn take_option(args: Seq<Seq<char>>, key: Seq<char>) -> (
    Result<Option<u64>, Seq<char>>,
    Seq<Seq<char>>,
) {
    let i = position(args, key);
    if i >= args.len() {
        (Ok(None), args)
    } else if i + 1 >= args.len() {
        (Err("the '"@ + key + "' option doesn't have an associated value"@), args)
    } else {
        let value = args[(i + 1) as int];
        match crate::decimal::u64_of_text(value) {
            Some(n) => (Ok(Some(n)), args.remove(i as int).remove(i as int)),
            None => (
                Err(
                    "failed to parse '"@ + value + "': "@ + crate::decimal::u64_error_text(value),
                ),
                args,
            ),
        }
    }
}

/// The first argument if it is no flag, and the list without it.
pub open spec fn take_subcommand(args: Seq<Seq<char>>) -> (Option<Seq<char>>, Seq<Seq<char>>) {
    if args.len() == 0 || (args[0].len() > 0 && args[0][0] == '-') {
        (None, args)
    } else {
        (Some(args[0]), args.drop_first())
    }
}

/// Whether a key begins with two dashes, as every key of the tool does.
pub open spec fn is_long_key(key: Seq<char>) -> bool {
    key.len() > 2 && key[0] == '-' && key[1] == '-'
}

/// Makes an argument list with `pico_args::Arguments::from_vec`, which holds the arguments it is
/// given, in order.
#[verifier::external_body]
pub(crate) fn arguments_from(args: Vec<String>) -> (r: pico_args::Arguments)
    ensures
        argument_list(r) == texts(args@),
{
    pico_args::Arguments::from_vec(args.into_iter().map(|arg| arg.into()).collect())
}

/// Takes a flag with `pico_args::Arguments::contains`, which looks through the whole list and
/// removes the first occurrence.
#[verifier::external_body]
pub(crate) fn contains_flag(args: &mut pico_args::Arguments, key: &'static str) -> (r: bool)
    requires
        is_long_key(key@),
    ensures
        (r, argument_list(*final(args))) == take_flag(argument_list(*old(args)), key@),
{
    args.contains(key)
}

/// Takes an option and its number with `pico_args::Arguments::opt_value_from_str`.
///
/// It looks for the key through the whole list, reads the argument after it as `str::parse` does,
/// and removes both only if that succeeds. Its errors are worded as `take_option` says.
#[verifier::external_body]
pub(crate) fn option_value(args: &mut pico_args::Arguments, key: &'static str) -> (r: Result<
    Option<u64>,
    String,
>)
    requires
        is_long_key(key@),
    ensures
        argument_list(*final(args)) == take_option(argument_list(*old(args)), key@).1,
        match take_option(argument_list(*old(args)), key@).0 {
            Ok(n) => r == Ok::<Option<u64>, String>(n),
            Err(text) => r matches Err(e) && e@ == text,
        },
{
    args.opt_value_from_str(key).map_err(|e| e.to_string())
}

/// Takes the subcommand with `pico_args::Arguments::subcommand`: the first argument, unless it
/// begins with a dash. It fails only on an argument that is not Unicode, which no list made of
/// strings holds.
#[verifier::external_body]
pub(crate) fn subcommand(args: &mut pico_args::Arguments) -> (r: Result<Option<String>, String>)
    ensures
        argument_list(*final(args)) == take_subcommand(argument_list(*old(args))).1,
        match take_subcommand(argument_list(*old(args))).0 {
            Some(text) => r matches Ok(Some(s)) && s@ == text,
            None => r matches Ok(None),
        },
{
    args.subcommand().map_err(|e| e.to_string())
}

/// The arguments that are left, with `pico_args::Arguments::finish`, which hands them out in
/// order.
#[verifier::external_body]
pub(crate) fn remaining_arguments(args: pico_args::Arguments) -> (r: Vec<String>)
    ensures
        texts(r@) == argument_list(args),
{
    args.finish().into_iter().map(|arg| arg.to_string_lossy().into_owned()).collect()
}

/// Texts with a space between each two.
pub open spec fn spaced(args: Seq<Seq<char>>) -> Seq<char>
    decreases args.len(),
{
    if args.len() == 0 {
        Seq::empty()
    } else if args.len() == 1 {
        args[0]
    } else {
        spaced(args.drop_last()) + " "@ + args.last()
    }
}

/// Arguments as one line of text.
pub fn format_arg_list(args: &Vec<String>) -> (r: String)
    ensures
        r@ == spaced(texts(args@)),
{
    let mut line: String = String::new();
    for i in 0..args.len()
        invariant
            line@ == spaced(texts(args@).take(i as int)),
    {
        if i > 0 {
            line.append(" ");
        }
        line.append(args[i].as_str());
        assert(texts(args@).take(i + 1).drop_last() =~= texts(args@).take(i as int));
    }
    assert(texts(args@).take(args@.len() as int) =~= texts(args@));
    line
}

/// A flag or option that is found stands where `position` says, and before that it does not.
pub proof fn lemma_position(args: Seq<Seq<char>>, key: Seq<char>)
    ensures
        position(args, key) <= args.len(),
        position(args, key) < args.len() ==> args[position(args, key) as int] == key,
        forall|i: int| 0 <= i < position(args, key) ==> #[trigger] args[i] != key,
        position(args, key) < args.len() <==> args.contains(key),
    decreases args.len(),
{
    if args.len() > 0 && args[0] != key {
        let rest = args.drop_first();
        lemma_position(rest, key);
        assert forall|i: int| 0 <= i < position(args, key) implies #[trigger] args[i] != key by {
            if i > 0 {
                assert(args[i] == rest[i - 1]);
            }
        }
        if rest.contains(key) {
            let i = choose|i: int| 0 <= i < rest.len() && rest[i] == key;
            assert(args[i + 1] == key);
        }
        if args.contains(key) {
            let i = choose|i: int| 0 <= i < args.len() && args[i] == key;
            assert(rest[i - 1] == key);
        }
    } else if args.len() > 0 {
        assert(args[0] == key);
    }
}

/// Taking a flag says whether it stands in the list, and takes its first occurrence alone.
pub proof fn law_flag_is_taken(args: Seq<Seq<char>>, key: Seq<char>)
    ensures
        take_flag(args, key).0 == args.contains(key),
        !args.contains(key) ==> take_flag(args, key).1 == args,
        args.contains(key) ==> exists|i: int|
            0 <= i < args.len() && #[trigger] args[i] == key && !args.take(i).contains(key)
                && take_flag(args, key).1 == args.take(i) + args.skip(i + 1),
{
    lemma_position(args, key);
    if args.contains(key) {
        let i = position(args, key) as int;
        assert(args[i] == key);
        assert forall|j: int| 0 <= j < i implies #[trigger] args.take(i)[j] != key by {
            assert(args[j] != key);
        }
        assert(args.remove(i) =~= args.take(i) + args.skip(i + 1));
    }
}

/// Taking an option: nothing without it. With it, the argument behind its first occurrence has to
/// read as a number, which is given, and both are taken; otherwise it is an error.
pub proof fn law_option_is_taken(args: Seq<Seq<char>>, key: Seq<char>)
    ensures
        !args.contains(key) ==> take_option(args, key) == (
            Ok::<Option<u64>, Seq<char>>(None),
            args,
        ),
        args.contains(key) ==> exists|i: int|
            0 <= i < args.len() && #[trigger] args[i] == key && !args.take(i).contains(key) && (
            match take_option(args, key) {
                (Ok(value), rest) => {
                    &&& i + 1 < args.len()
                    &&& value is Some
                    &&& crate::decimal::u64_of_text(args[i + 1]) == value
                    &&& rest == args.take(i) + args.skip(i + 2)
                },
                (Err(e), _) => if i + 1 == args.len() {
                    e == "the '"@ + key + "' option doesn't have an associated value"@
                } else {
                    crate::decimal::u64_of_text(args[i + 1]) is None && e == "failed to parse '"@
                        + args[i + 1] + "': "@ + crate::decimal::u64_error_text(args[i + 1])
                },
            }),
{
    lemma_position(args, key);
    if args.contains(key) {
        let i = position(args, key) as int;
        assert(args[i] == key);
        assert forall|j: int| 0 <= j < i implies #[trigger] args.take(i)[j] != key by {
            assert(args[j] != key);
        }
        if i + 1 < args.len() {
            assert(args.remove(i).remove(i) =~= args.take(i) + args.skip(i + 2));
        }
    }
}

/// The subcommand is the first argument, unless that begins with a dash.
pub proof fn law_subcommand_stands_first(args: Seq<Seq<char>>)
    ensures
        args.len() == 0 ==> take_subcommand(args) == (None::<Seq<char>>, args),
        args.len() > 0 && args[0].len() > 0 && args[0][0] == '-' ==> take_subcommand(args) == (
            None::<Seq<char>>,
            args,
        ),
        args.len() > 0 && (args[0].len() == 0 || args[0][0] != '-') ==> take_subcommand(args) == (
            Some(args[0]),
            args.skip(1),
        ),
{
    if args.len() > 0 {
        assert(args.drop_first() =~= args.skip(1));
    }
}

/// The texts of strings are theirs, one for one.
pub proof fn law_texts_are_faithful(v: Seq<String>)
    ensures
        texts(v).len() == v.len(),
        forall|i: int| 0 <= i < v.len() ==> #[trigger] texts(v)[i] == v[i]@,
{
}

/// A line of arguments is cut at any place by one space.
pub proof fn law_arguments_are_spaced(first: Seq<Seq<char>>, second: Seq<Seq<char>>)
    ensures
        first.len() == 0 ==> spaced(first).len() == 0,
        first.len() == 1 ==> spaced(first) == first[0],
        first.len() > 0 && second.len() > 0 ==> spaced(first + second) == spaced(first) + seq![' ']
            + spaced(second),
    decreases second.len(),
{
    reveal_strlit(" ");
    assert(" "@ =~= seq![' ']);
    if first.len() > 0 && second.len() > 0 {
        let all = first + second;
        assert(all.drop_last() =~= first + second.drop_last());
        assert(all.last() == second.last());
        if second.len() == 1 {
            assert(first + second.drop_last() =~= first);
        } else {
            law_arguments_are_spaced(first, second.drop_last());
            assert(spaced(all) =~= spaced(first) + seq![' '] + spaced(second));
        }
    }
}

/// Taking one flag neither hides nor brings another.
pub proof fn lemma_other_flag(args: Seq<Seq<char>>, key: Seq<char>, other: Seq<char>)
    requires
        key != other,
    ensures
        take_flag(args, key).1.contains(other) == args.contains(other),
{
    let i = position(args, key) as int;
    lemma_position(args, key);
    if i < args.len() {
        let rest = args.remove(i);
        if args.contains(other) {
            let j = choose|j: int| 0 <= j < args.len() && args[j] == other;
            if j < i {
                assert(rest[j] == other);
            } else {
                assert(rest[j - 1] == other);
            }
        }
        if rest.contains(other) {
            let j = choose|j: int| 0 <= j < rest.len() && rest[j] == other;
            if j < i {
                assert(args[j] == other);
            } else {
                assert(args[j + 1] == other);
            }
        }
    }
}

} // verus!
