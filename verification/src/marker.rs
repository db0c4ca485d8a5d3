//! The marker by which the daemon recognizes that an SSH login has succeeded.
//!
//! SSH is told to run a command that prints a random text, the "key", on the
//! remote host. Once the key shows up in SSH's output, the user has logged in.

use vstd::prelude::*;

verus! {

/// The byte that ends a line.
pub const NEWLINE: u8 = 0x0A;

/// How far the search for the key in SSH's output has come.
#[derive(Copy, Clone, Debug, Eq, PartialEq, Structural)]
pub enum SshKeyStatus {
    /// The output so far ends in this many bytes of the key.
    Searching(usize),
    /// The key has been printed.
    FoundIt,
}

/// What every key begins with.
pub const KEY_PREFIX: &'static str = "STUND:";

/// The base64 text of `input`, in the standard alphabet and with padding.
pub uninterp spec fn base64_text(input: Seq<u8>) -> Seq<char>;

/// Whether `c` may stand in a base64 text.
pub open spec fn is_base64_char(c: char) -> bool {
    ||| 'A' <= c <= 'Z'
    ||| 'a' <= c <= 'z'
    ||| '0' <= c <= '9'
    ||| c == '+'
    ||| c == '/'
    ||| c == '='
}

/// The key that is made from `random` bytes.
pub open spec fn key_text(random: Seq<u8>) -> Seq<char> {
    KEY_PREFIX@ + base64_text(random)
}

/// Whether `text` has the shape of a key: the prefix, then 44 base64 characters.
pub open spec fn is_key(text: Seq<char>) -> bool {
    &&& text.len() == 50
    &&& text.take(6) == KEY_PREFIX@
    &&& forall|i: int| 6 <= i < 50 ==> is_base64_char(#[trigger] text[i])
}

/// Calls `base64::encode`. Believed of it: the result depends on the bytes
/// alone, and is named `base64_text`; it has four characters for every three
/// bytes begun, each of them a letter, a digit, `+`, `/` or the padding `=`.
#[verifier::external_body]
fn base64_encode(input: &[u8; 32]) -> (text: String)
    ensures
        text@ == base64_text(input@),
        text@.len() == 44,
        forall|i: int| 0 <= i < text@.len() ==> is_base64_char(#[trigger] text@[i]),
{
    base64::encode(input)
}

/// Calls `rand::thread_rng` and fills 32 bytes from it with
/// `rand::RngCore::fill_bytes`. Nothing is believed of what they hold.
#[verifier::external_body]
fn random_bytes() -> (bytes: [u8; 32]) {
    let mut bytes = [0u8; 32];
    rand::RngCore::fill_bytes(&mut rand::thread_rng(), &mut bytes);
    bytes
}

/// Make the key for some random bytes.
pub fn make_key(random: &[u8; 32]) -> (key: String)
    ensures
        key@ == key_text(random@),
        is_key(key@),
{
    let text = base64_encode(random);
    let mut key = KEY_PREFIX.to_owned();
    key.append(text.as_str());
    proof {
        reveal_strlit("STUND:");
        assert(key@.take(6) =~= KEY_PREFIX@);
        assert forall|i: int| 6 <= i < 50 implies is_base64_char(#[trigger] key@[i]) by {
            assert(key@[i] == text@[i - 6]);
        }
    }
    key
}

/// Make a key that nobody can guess.
pub fn generate_key() -> (key: String)
    ensures
        is_key(key@),
        exists|random: Seq<u8>| random.len() == 32 && key@ == #[trigger] key_text(random),
{
    let random = random_bytes();
    make_key(&random)
}

/// The bytes of a key as SSH will print them.
pub fn key_bytes(key: &str) -> (bytes: Vec<u8>)
    ensures
        bytes@ == vstd::utf8::encode_utf8(key@),
{
    vstd::slice::slice_to_vec(key.as_bytes())
}

/// A key takes one byte per character, and is of one line.
pub proof fn law_key_is_one_line(key: Seq<char>)
    requires
        is_key(key),
    ensures
        vstd::utf8::encode_utf8(key).len() == 50,
        !vstd::utf8::encode_utf8(key).contains(NEWLINE),
{
    reveal_strlit("STUND:");
    assert forall|i: int| 0 <= i < key.len() implies ' ' < #[trigger] key[i] <= '~' by {
        if i < 6 {
            assert(key.take(6)[i] == key[i]);
        }
    }
    vstd::utf8::is_ascii_chars_encode_utf8(key);
}

/// Whether `part` stands in `whole` at position `p`.
pub open spec fn occurs_at(part: Seq<u8>, whole: Seq<u8>, p: int) -> bool {
    &&& 0 <= p
    &&& p + part.len() <= whole.len()
    &&& whole.subrange(p, p + part.len()) == part
}

/// Whether `part` stands somewhere in `whole`.
pub open spec fn occurs(part: Seq<u8>, whole: Seq<u8>) -> bool {
    exists|p: int| #[trigger] occurs_at(part, whole, p)
}

/// Whether `output` ends in the first `m` bytes of `key`.
pub open spec fn ends_in(key: Seq<u8>, output: Seq<u8>, m: int) -> bool {
    &&& 0 <= m <= key.len()
    &&& m <= output.len()
    &&& output.skip(output.len() - m) == key.take(m)
}

/// How many of the first bytes of `key` the `output` ends in, at the most and
/// not counting more than `most`.
pub open spec fn longest_start(key: Seq<u8>, output: Seq<u8>, most: nat) -> nat
    decreases most,
{
    if most == 0 || ends_in(key, output, most as int) {
        most
    } else {
        longest_start(key, output, (most - 1) as nat)
    }
}

/// How many bytes of `key` are matched after `output`, when `n` were matched
/// before it: all of them once the key stands somewhere in what SSH printed,
/// else as many as SSH's output ends in.
pub open spec fn matched(key: Seq<u8>, n: nat, output: Seq<u8>) -> nat {
    let seen = key.take(n as int) + output;
    if occurs(key, seen) {
        key.len()
    } else {
        longest_start(key, seen, key.len())
    }
}

/// Whether the first `n` bytes of `key`, followed by `b`, end in its first `m`
/// bytes.
fn ends_in_start(key: &[u8], n: usize, b: u8, m: usize) -> (yes: bool)
    requires
        n < key.len(),
        m <= n + 1,
    ensures
        yes == ends_in(key@, key@.take(n as int).push(b), m as int),
{
    let ghost window = key@.take(n as int).push(b);
    let ghost end = window.skip(window.len() - m);
    let mut j: usize = 0;
    while j < m
        invariant
            n < key.len(),
            j <= m <= n + 1,
            window == key@.take(n as int).push(b),
            end == window.skip(window.len() - m),
            forall|k: int| 0 <= k < j ==> end[k] == key@[k],
        decreases m - j,
    {
        let at: usize = n + 1 - m + j;
        let c = if at < n {
            key[at]
        } else {
            b
        };
        proof {
            assert(end[j as int] == window[at as int]);
            assert(window[at as int] == c);
        }
        if c != key[j] {
            proof {
                assert(key@.take(m as int)[j as int] == key@[j as int]);
            }
            return false;
        }
        j = j + 1;
    }
    proof {
        assert(end =~= key@.take(m as int));
    }
    true
}

/// How many bytes of the key are matched when `n` were and `b` comes next.
fn advance_by(key: &[u8], n: usize, b: u8) -> (m: usize)
    requires
        n < key.len(),
    ensures
        m == longest_start(key@, key@.take(n as int).push(b), key@.len()),
        m <= n + 1,
{
    let ghost window = key@.take(n as int).push(b);
    let mut m: usize = n + 1;
    while m > 0 && !ends_in_start(key, n, b, m)
        invariant
            n < key.len(),
            m <= n + 1,
            window == key@.take(n as int).push(b),
            forall|k: int| m < k <= key@.len() ==> !ends_in(key@, window, k),
        decreases m,
    {
        m = m - 1;
    }
    proof {
        assert(window.skip(window.len() as int) =~= key@.take(0));
        lemma_is_longest(key@, window, m as int);
    }
    m
}

impl SshKeyStatus {
    /// The number of bytes of the key that are matched.
    pub open spec fn progress(self, key: Seq<u8>) -> nat {
        match self {
            SshKeyStatus::Searching(n) => n as nat,
            SshKeyStatus::FoundIt => key.len(),
        }
    }

    /// A search is on only as long as some of the key is missing.
    pub open spec fn wf(self, key: Seq<u8>) -> bool {
        self matches SshKeyStatus::Searching(n) ==> n < key.len()
    }

    /// Search on through `bytes`, which SSH printed next.
    pub fn advance(self, key: &[u8], bytes: &[u8]) -> (status: SshKeyStatus)
        requires
            self.wf(key@),
        ensures
            status.wf(key@),
            status.progress(key@) == matched(key@, self.progress(key@), bytes@),
    {
        match self {
            SshKeyStatus::FoundIt => {
                proof {
                    assert(key@.take(key@.len() as int) =~= key@);
                    lemma_occurs_stays(key@, key@, bytes@);
                }
                SshKeyStatus::FoundIt
            },
            SshKeyStatus::Searching(next) => {
                let mut n: usize = next;
                let mut i: usize = 0;
                let ghost start = key@.take(next as int);
                proof {
                    assert(start + bytes@.take(0) =~= start);
                    lemma_start_of_key(key@, next as int);
                }
                while i < bytes.len()
                    invariant
                        self == SshKeyStatus::Searching(next),
                        n < key.len(),
                        i <= bytes.len(),
                        start == key@.take(next as int),
                        !occurs(key@, start + bytes@.take(i as int)),
                        n == longest_start(key@, start + bytes@.take(i as int), key@.len()),
                    decreases bytes.len() - i,
                {
                    let ghost seen = start + bytes@.take(i as int);
                    let ghost b = bytes@[i as int];
                    n = advance_by(key, n, bytes[i]);
                    i = i + 1;
                    proof {
                        lemma_push(key@, seen, b);
                        assert(start + bytes@.take(i as int) =~= seen.push(b));
                    }
                    if n == key.len() {
                        proof {
                            assert(start + bytes@ =~= seen.push(b) + bytes@.skip(i as int));
                            lemma_occurs_stays(key@, seen.push(b), bytes@.skip(i as int));
                        }
                        return SshKeyStatus::FoundIt;
                    }
                }
                proof {
                    assert(bytes@.take(i as int) =~= bytes@);
                }
                SshKeyStatus::Searching(n)
            },
        }
    }
}

/// The longest start of the key is one that the output ends in, and there is
/// none longer.
proof fn lemma_longest(key: Seq<u8>, output: Seq<u8>, most: nat)
    requires
        most <= key.len(),
    ensures
        longest_start(key, output, most) <= most,
        ends_in(key, output, longest_start(key, output, most) as int),
        forall|k: int|
            longest_start(key, output, most) < k <= most ==> !ends_in(key, output, k),
    decreases most,
{
    assert(output.skip(output.len() as int) =~= key.take(0));
    if most > 0 && !ends_in(key, output, most as int) {
        lemma_longest(key, output, (most - 1) as nat);
    }
}

/// There is only one longest start of the key.
proof fn lemma_is_longest(key: Seq<u8>, output: Seq<u8>, m: int)
    requires
        ends_in(key, output, m),
        forall|k: int| m < k <= key.len() ==> !ends_in(key, output, k),
    ensures
        longest_start(key, output, key.len()) == m,
{
    lemma_longest(key, output, key.len());
    let l = longest_start(key, output, key.len()) as int;
    assert(ends_in(key, output, l));
}

/// What stands in some output still stands in it when there is more.
proof fn lemma_occurs_stays(key: Seq<u8>, output: Seq<u8>, more: Seq<u8>)
    requires
        occurs(key, output) || output == key,
    ensures
        occurs(key, output + more),
{
    if output == key {
        assert(key.subrange(0, key.len() as int) =~= key);
        assert(occurs_at(key, output, 0));
    }
    let p = choose|p: int| #[trigger] occurs_at(key, output, p);
    assert((output + more).subrange(p, p + key.len()) =~= output.subrange(p, p + key.len()));
    assert(occurs_at(key, output + more, p));
}

/// A part of the key that lacks some of it is matched as far as it goes.
proof fn lemma_start_of_key(key: Seq<u8>, n: int)
    requires
        0 <= n < key.len(),
    ensures
        !occurs(key, key.take(n)),
        longest_start(key, key.take(n), key.len()) == n,
{
    let start = key.take(n);
    assert(start.skip(0) =~= start);
    assert(ends_in(key, start, n));
    lemma_is_longest(key, start, n);
}

/// As long as the key has not been printed, all that matters for what follows
/// is how many of its bytes the output ends in.
proof fn lemma_push(key: Seq<u8>, output: Seq<u8>, b: u8)
    requires
        !occurs(key, output),
    ensures
        ({
            let m = longest_start(key, output, key.len()) as int;
            let window = key.take(m).push(b);
            &&& m < key.len()
            &&& forall|k: int|
                #![trigger ends_in(key, output.push(b), k)]
                #![trigger ends_in(key, window, k)]
                ends_in(key, output.push(b), k) == ends_in(key, window, k)
            &&& longest_start(key, output.push(b), key.len()) == longest_start(
                key,
                window,
                key.len(),
            )
            &&& occurs(key, output.push(b)) <==> longest_start(key, window, key.len())
                == key.len()
        }),
{
    let longer = output.push(b);
    lemma_longest(key, output, key.len());
    let m = longest_start(key, output, key.len()) as int;
    let window = key.take(m).push(b);
    if m == key.len() {
        assert(key.take(m) =~= key);
        assert(output.subrange(output.len() - m, output.len() as int) =~= output.skip(
            output.len() - m,
        ));
        assert(occurs_at(key, output, output.len() - m));
    }
    let tail = output.skip(output.len() - m);
    assert(tail == key.take(m));
    assert forall|k: int|
        #![trigger ends_in(key, longer, k)]
        #![trigger ends_in(key, window, k)]
        ends_in(key, longer, k) == ends_in(key, window, k) by {
        if k == 0 {
            assert(longer.skip(longer.len() as int) =~= key.take(0));
            assert(window.skip(window.len() as int) =~= key.take(0));
        } else if 0 < k <= key.len() {
            if k <= longer.len() && longer.skip(longer.len() - k) == key.take(k) {
                let end = longer.skip(longer.len() - k);
                assert(output.skip(output.len() - (k - 1)) =~= end.drop_last());
                assert(key.take(k).drop_last() =~= key.take(k - 1));
                assert(ends_in(key, output, k - 1));
                assert(k - 1 <= m);
            }
            if k <= m + 1 {
                assert(longer.skip(longer.len() - k) =~= tail.push(b).skip(m + 1 - k));
            }
        }
    }
    lemma_longest(key, longer, key.len());
    lemma_longest(key, window, key.len());
    let l = longest_start(key, window, key.len()) as int;
    assert(ends_in(key, longer, l));
    assert forall|k: int| l < k <= key.len() implies !ends_in(key, longer, k) by {
        assert(!ends_in(key, window, k));
    }
    lemma_is_longest(key, longer, l);
    if l == key.len() {
        assert(key.take(l) =~= key);
        assert(longer.subrange(longer.len() - l, longer.len() as int) =~= longer.skip(
            longer.len() - l,
        ));
        assert(occurs_at(key, longer, longer.len() - l));
    }
    if occurs(key, longer) {
        let p = choose|p: int| #[trigger] occurs_at(key, longer, p);
        if p + key.len() <= output.len() {
            assert(longer.subrange(p, p + key.len()) =~= output.subrange(p, p + key.len()));
            assert(occurs_at(key, output, p));
        }
        assert(longer.skip(p) =~= longer.subrange(p, p + key.len()));
        assert(key.take(key.len() as int) =~= key);
        assert(ends_in(key, longer, key.len() as int));
    }
}

/// Two outputs that lack the key and end in as many of its bytes are alike to
/// the search, whatever follows.
proof fn lemma_alike(key: Seq<u8>, one: Seq<u8>, other: Seq<u8>, more: Seq<u8>)
    requires
        !occurs(key, one),
        !occurs(key, other),
        longest_start(key, one, key.len()) == longest_start(key, other, key.len()),
    ensures
        occurs(key, one + more) == occurs(key, other + more),
        !occurs(key, one + more) ==> longest_start(key, one + more, key.len()) == longest_start(
            key,
            other + more,
            key.len(),
        ),
    decreases more.len(),
{
    if more.len() == 0 {
        assert(one + more =~= one);
        assert(other + more =~= other);
    } else {
        let init = more.drop_last();
        let b = more.last();
        lemma_alike(key, one, other, init);
        assert(one + more =~= (one + init).push(b));
        assert(other + more =~= (other + init).push(b));
        if occurs(key, one + init) {
            assert(one + more =~= (one + init) + seq![b]);
            assert(other + more =~= (other + init) + seq![b]);
            lemma_occurs_stays(key, one + init, seq![b]);
            lemma_occurs_stays(key, other + init, seq![b]);
        } else {
            lemma_push(key, one + init, b);
            lemma_push(key, other + init, b);
        }
    }
}

/// The search is done if and only if the key stands somewhere in what SSH
/// printed.
pub proof fn law_found_iff_printed(key: Seq<u8>, output: Seq<u8>)
    ensures
        matched(key, 0, output) == key.len() <==> exists|p: int| #[trigger]
            occurs_at(key, output, p),
{
    assert(key.take(0) + output =~= output);
    if !occurs(key, output) {
        lemma_longest(key, output, key.len());
        if longest_start(key, output, key.len()) == key.len() {
            let p = output.len() - key.len();
            assert(key.take(key.len() as int) =~= key);
            assert(output.subrange(p, output.len() as int) =~= output.skip(p));
            assert(occurs_at(key, output, p));
        }
    }
}

/// As long as the search is on, what it has matched is the longest start of the
/// key that SSH's output ends in.
pub proof fn law_search_keeps_the_longest_match(key: Seq<u8>, output: Seq<u8>)
    requires
        matched(key, 0, output) < key.len(),
    ensures
        ends_in(key, output, matched(key, 0, output) as int),
        forall|k: int|
            matched(key, 0, output) < k <= key.len() ==> !ends_in(key, output, k),
{
    assert(key.take(0) + output =~= output);
    lemma_longest(key, output, key.len());
}

/// Before SSH has printed anything, nothing of the key is matched.
pub proof fn law_nothing_matched_at_first(key: Seq<u8>)
    ensures
        matched(key, 0, Seq::empty()) == 0,
{
    assert(key.take(0) + Seq::<u8>::empty() =~= key.take(0));
    if key.len() > 0 {
        lemma_start_of_key(key, 0);
    }
}

/// How SSH's output is cut into pieces makes no difference to the search.
pub proof fn law_matched_in_parts(key: Seq<u8>, n: nat, first: Seq<u8>, second: Seq<u8>)
    requires
        n <= key.len(),
    ensures
        matched(key, n, first + second) == matched(key, matched(key, n, first), second),
{
    let start = key.take(n as int);
    let seen = start + first;
    let m = matched(key, n, first);
    assert(start + (first + second) =~= seen + second);
    if occurs(key, seen) {
        lemma_occurs_stays(key, seen, second);
        assert(key.take(m as int) =~= key);
        lemma_occurs_stays(key, key, second);
    } else {
        lemma_longest(key, seen, key.len());
        if m == key.len() {
            let p = seen.len() - m;
            assert(key.take(m as int) =~= key);
            assert(seen.subrange(p, seen.len() as int) =~= seen.skip(p));
            assert(occurs_at(key, seen, p));
        }
        lemma_start_of_key(key, m as int);
        lemma_alike(key, seen, key.take(m as int), second);
    }
}

} // verus!
