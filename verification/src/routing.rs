use vstd::prelude::*;

verus! {

/// `c` is an ASCII upper-case letter.
pub open spec fn is_ascii_upper(c: char) -> bool {
    65 <= c as int && c as int <= 90
}

/// `c` is an ASCII decimal digit.
pub open spec fn is_ascii_digit(c: char) -> bool {
    48 <= c as int && c as int <= 57
}

/// ASCII upper-case letters lowered; every other character unchanged.
pub open spec fn to_lower(c: char) -> char {
    if is_ascii_upper(c) {
        (c as int + 32) as char
    } else {
        c
    }
}

/// A word boundary falls before `c`: at a transition into upper case or
/// into a digit run, except right after an underscore (the sentinel for
/// the start of the name, where no separator is owed).
pub open spec fn boundary(prev: char, c: char) -> bool {
    prev != '_' && (is_ascii_upper(c) || (is_ascii_digit(c) && !is_ascii_digit(prev)))
}

/// What one character contributes to the key, after the character `prev`.
pub open spec fn emit(prev: char, c: char) -> Seq<char> {
    if boundary(prev, c) {
        seq!['_', to_lower(c)]
    } else {
        seq![to_lower(c)]
    }
}

/// The key for `s` when the character before `s` was `prev`.
pub open spec fn snake_from(prev: char, s: Seq<char>) -> Seq<char>
    decreases s.len(),
{
    if s.len() == 0 {
        Seq::empty()
    } else {
        emit(prev, s[0]) + snake_from(s[0], s.drop_first())
    }
}

/// The routing-key transform: words split at case and digit transitions,
/// joined with underscores, lower-cased. The underscore sentinel keeps the
/// first word unseparated.
pub open spec fn snake_of(s: Seq<char>) -> Seq<char> {
    snake_from('_', s)
}

/// Already in routing-key form: no ASCII upper-case letter, and every
/// digit either continues a digit run or follows an underscore or starts
/// the string.
pub open spec fn is_snake_case(s: Seq<char>) -> bool {
    (forall|i: int| 0 <= i < s.len() ==> !is_ascii_upper(#[trigger] s[i])) && (forall|i: int|
        1 <= i < s.len() && is_ascii_digit(#[trigger] s[i]) ==> is_ascii_digit(s[i - 1]) || s[i
            - 1] == '_')
}

/// Unfolds the transform at the far end: the key of `s` extended by `c` is
/// the key of `s` followed by what `c` contributes after `s`'s last
/// character.
proof fn lemma_snake_from_push(prev: char, s: Seq<char>, c: char)
    ensures
        snake_from(prev, s.push(c)) == snake_from(prev, s) + emit(
            if s.len() == 0 {
                prev
            } else {
                s.last()
            },
            c,
        ),
    decreases s.len(),
{
    if s.len() == 0 {
        assert(s.push(c)[0] == c);
        assert(s.push(c).drop_first() =~= Seq::<char>::empty());
        assert(s.push(c).len() == 1);
        assert(snake_from(prev, s.push(c)) == emit(prev, s.push(c)[0]) + snake_from(
            s.push(c)[0],
            s.push(c).drop_first(),
        ));
        assert(snake_from(c, Seq::<char>::empty()) =~= Seq::<char>::empty());
        assert(snake_from(prev, s) =~= Seq::<char>::empty());
        assert(snake_from(prev, s.push(c)) =~= snake_from(prev, s) + emit(prev, c));
    } else {
        assert(s.push(c)[0] == s[0]);
        assert(s.push(c).drop_first() =~= s.drop_first().push(c));
        lemma_snake_from_push(s[0], s.drop_first(), c);
        assert(if s.drop_first().len() == 0 {
            s[0]
        } else {
            s.drop_first().last()
        } == s.last());
        assert(snake_from(prev, s.push(c)) =~= snake_from(prev, s) + emit(s.last(), c));
    }
}

/// The transform is the identity on input already in routing-key form: the
/// transform is idempotent on such input.
pub proof fn lemma_snake_identity_on_snake_case(s: Seq<char>)
    requires
        is_snake_case(s),
    ensures
        snake_of(s) == s,
{
    lemma_snake_from_identity('_', s);
}

/// Helper for `lemma_snake_identity_on_snake_case`, generalized over the
/// preceding character.
proof fn lemma_snake_from_identity(prev: char, s: Seq<char>)
    requires
        forall|i: int| 0 <= i < s.len() ==> !is_ascii_upper(#[trigger] s[i]),
        forall|i: int|
            1 <= i < s.len() && is_ascii_digit(#[trigger] s[i]) ==> is_ascii_digit(s[i - 1]) || s[i
                - 1] == '_',
        s.len() > 0 && is_ascii_digit(s[0]) ==> is_ascii_digit(prev) || prev == '_',
    ensures
        snake_from(prev, s) == s,
    decreases s.len(),
{
    if s.len() > 0 {
        assert(!boundary(prev, s[0]));
        assert(to_lower(s[0]) == s[0]);
        assert forall|i: int| 0 <= i < s.drop_first().len() implies !is_ascii_upper(
            #[trigger] s.drop_first()[i],
        ) by {
            assert(s.drop_first()[i] == s[i + 1]);
        }
        assert forall|i: int|
            1 <= i < s.drop_first().len() && is_ascii_digit(
                #[trigger] s.drop_first()[i],
            ) implies is_ascii_digit(s.drop_first()[i - 1]) || s.drop_first()[i - 1] == '_' by {
            assert(s.drop_first()[i] == s[i + 1]);
            assert(s.drop_first()[i - 1] == s[i]);
        }
        if s.drop_first().len() > 0 && is_ascii_digit(s.drop_first()[0]) {
            assert(s.drop_first()[0] == s[1]);
        }
        lemma_snake_from_identity(s[0], s.drop_first());
        assert(snake_from(prev, s) =~= s);
    }
}

/// Every key the transform produces is itself in routing-key form, so the
/// transform is idempotent outright.
pub proof fn lemma_snake_idempotent(s: Seq<char>)
    ensures
        is_snake_case(snake_of(s)),
        snake_of(snake_of(s)) == snake_of(s),
{
    lemma_snake_from_is_snake('_', s);
    lemma_snake_identity_on_snake_case(snake_of(s));
}

/// Lowering never yields an upper-case letter and never changes whether a
/// character is a digit.
proof fn lemma_to_lower_shape(c: char)
    ensures
        !is_ascii_upper(to_lower(c)),
        is_ascii_digit(to_lower(c)) == is_ascii_digit(c),
        to_lower(c) == '_' <==> c == '_',
{
    if is_ascii_upper(c) {
        assert(to_lower(c) as int == c as int + 32);
    }
}

/// Helper for `lemma_snake_idempotent`, generalized over the preceding
/// character: what `snake_from` produces has no upper-case letter, keeps
/// every internal digit behind a digit or an underscore, and opens with a
/// digit only after a digit or an underscore.
proof fn lemma_snake_from_is_snake(prev: char, s: Seq<char>)
    ensures
        forall|i: int|
            0 <= i < snake_from(prev, s).len() ==> !is_ascii_upper(
                #[trigger] snake_from(prev, s)[i],
            ),
        forall|i: int|
            1 <= i < snake_from(prev, s).len() && is_ascii_digit(
                #[trigger] snake_from(prev, s)[i],
            ) ==> is_ascii_digit(snake_from(prev, s)[i - 1]) || snake_from(prev, s)[i - 1] == '_',
        snake_from(prev, s).len() > 0 && is_ascii_digit(snake_from(prev, s)[0])
            ==> is_ascii_digit(prev) || prev == '_',
    decreases s.len(),
{
    if s.len() > 0 {
        let c0 = s[0];
        let e = emit(prev, c0);
        let rest = snake_from(c0, s.drop_first());
        let out = snake_from(prev, s);
        lemma_snake_from_is_snake(c0, s.drop_first());
        lemma_to_lower_shape(c0);
        assert(out == e + rest);
        assert(e.last() == to_lower(c0));
        assert forall|i: int| 0 <= i < out.len() implies !is_ascii_upper(#[trigger] out[i]) by {
            if i < e.len() {
                assert(out[i] == e[i]);
            } else {
                assert(out[i] == rest[i - e.len()]);
            }
        }
        assert forall|i: int|
            1 <= i < out.len() && is_ascii_digit(#[trigger] out[i]) implies is_ascii_digit(
            out[i - 1],
        ) || out[i - 1] == '_' by {
            if i < e.len() {
                // inside a two-character emission: the digit sits after '_'
                assert(out[i] == e[i]);
                assert(out[i - 1] == e[0]);
            } else if i == e.len() {
                // the junction: the first character of the tail emission
                assert(out[i] == rest[0]);
                assert(out[i - 1] == e.last());
            } else {
                assert(out[i] == rest[i - e.len()]);
                assert(out[i - 1] == rest[i - e.len() - 1]);
            }
        }
        if out.len() > 0 && is_ascii_digit(out[0]) {
            assert(out[0] == e[0]);
        }
    }
}

/// Exec mirror of `is_ascii_upper`.
fn upper_char(c: char) -> (r: bool)
    ensures
        r == is_ascii_upper(c),
{
    let u: u32 = c as u32;
    65 <= u && u <= 90
}

/// Exec mirror of `is_ascii_digit`.
fn digit_char(c: char) -> (r: bool)
    ensures
        r == is_ascii_digit(c),
{
    let u: u32 = c as u32;
    48 <= u && u <= 57
}

/// Exec mirror of `to_lower`.
fn lower_char(c: char) -> (r: char)
    ensures
        r == to_lower(c),
{
    let u: u32 = c as u32;
    if 65 <= u && u <= 90 {
        let b: u8 = u as u8;
        let l: u8 = b + 32;
        l as char
    } else {
        c
    }
}

/// Exec mirror of `boundary`.
fn boundary_char(prev: char, c: char) -> (r: bool)
    ensures
        r == boundary(prev, c),
{
    prev != '_' && (upper_char(c) || (digit_char(c) && !digit_char(prev)))
}

/// Relies on `String::push`: appends exactly the one character.
#[verifier::external_body]
fn push_char(s: &mut String, c: char)
    ensures
        final(s)@ == old(s)@.push(c),
{
    s.push(c);
}

/// Derives a handler's routing key from its declared name, for example
/// `MyCommand` to `my_command`. Pure in its argument, and fixed by
/// `snake_of`.
pub fn snake_key(name: &str) -> (r: String)
    ensures
        r@ == snake_of(name@),
{
    let n: usize = name.unicode_len();
    let mut out: String = String::new();
    let mut prev: char = '_';
    let mut i: usize = 0;
    while i < n
        invariant
            n == name@.len(),
            i <= n,
            prev == (if i == 0 {
                '_'
            } else {
                name@[i as int - 1]
            }),
            out@ == snake_of(name@.subrange(0, i as int)),
        decreases n - i,
    {
        let c = name.get_char(i);
        proof {
            assert(name@.subrange(0, i as int + 1) =~= name@.subrange(0, i as int).push(
                name@[i as int],
            ));
            lemma_snake_from_push('_', name@.subrange(0, i as int), name@[i as int]);
        }
        if boundary_char(prev, c) {
            push_char(&mut out, '_');
        }
        push_char(&mut out, lower_char(c));
        proof {
            assert(out@ =~= snake_of(name@.subrange(0, i as int + 1)));
        }
        prev = c;
        i += 1;
    }
    proof {
        assert(name@.subrange(0, n as int) =~= name@);
    }
    out
}

} // verus!
