//! Parsing of shortcut specifications such as `Ctrl+Shift+Q` into a
//! modifier set plus exactly one non-modifier key.
//!
//! A specification is split on `+`; each token is trimmed and is either a
//! modifier name (`Ctrl`/`Control`, `Shift`, `Alt`, `Meta`/`Win`) or a key
//! token (a letter, a digit, or `F1`..`F12`, case-insensitive). Exactly one
//! key token is required.
use vstd::prelude::*;
use crate::text::{is_space_char, upper_char, uppercase, is_space, to_upper};

verus! {

/// The non-modifier key of a binding.
#[derive(Clone, Copy, PartialEq, Eq, Hash, Structural, Debug)]
pub enum KeyCode {
    A,
    B,
    C,
    D,
    E,
    F,
    G,
    H,
    I,
    J,
    K,
    L,
    M,
    N,
    O,
    P,
    Q,
    R,
    S,
    T,
    U,
    V,
    W,
    X,
    Y,
    Z,
    D0,
    D1,
    D2,
    D3,
    D4,
    D5,
    D6,
    D7,
    D8,
    D9,
    F1,
    F2,
    F3,
    F4,
    F5,
    F6,
    F7,
    F8,
    F9,
    F10,
    F11,
    F12,
}

/// One of the four recognized modifier names.
#[derive(Clone, Copy, PartialEq, Eq, Hash, Structural, Debug)]
pub enum ModifierKey {
    Ctrl,
    Shift,
    Alt,
    Meta,
}

/// The set of modifiers of a binding; repeats in the specification are
/// harmless because each name only sets its flag.
#[derive(Clone, Copy, PartialEq, Eq, Hash, Structural, Debug)]
pub struct Modifiers {
    pub ctrl: bool,
    pub shift: bool,
    pub alt: bool,
    pub meta: bool,
}

/// A parsed shortcut: a modifier set plus exactly one key.
#[derive(Clone, Copy, PartialEq, Eq, Hash, Structural, Debug)]
pub struct Binding {
    pub mods: Modifiers,
    pub key: KeyCode,
}

/// Why a shortcut specification was rejected.
#[derive(Clone, Copy, PartialEq, Eq, Hash, Structural, Debug)]
pub enum ParseError {
    /// A token is neither a modifier name nor a recognized key.
    UnknownKey,
    /// More than one non-modifier token.
    MultipleKeys,
    /// No non-modifier token at all.
    NoKey,
}

impl Modifiers {
    /// The empty modifier set.
    pub fn none() -> (r: Modifiers)
        ensures
            r == no_modifiers(),
    {
        Modifiers { ctrl: false, shift: false, alt: false, meta: false }
    }
}

pub open spec fn no_modifiers() -> Modifiers {
    Modifiers { ctrl: false, shift: false, alt: false, meta: false }
}

pub open spec fn with_modifier(m: Modifiers, k: ModifierKey) -> Modifiers {
    match k {
        ModifierKey::Ctrl => Modifiers { ctrl: true, shift: m.shift, alt: m.alt, meta: m.meta },
        ModifierKey::Shift => Modifiers { ctrl: m.ctrl, shift: true, alt: m.alt, meta: m.meta },
        ModifierKey::Alt => Modifiers { ctrl: m.ctrl, shift: m.shift, alt: true, meta: m.meta },
        ModifierKey::Meta => Modifiers { ctrl: m.ctrl, shift: m.shift, alt: m.alt, meta: true },
    }
}

/// Law: modifiers combine as a set, so a repeated modifier name leaves
/// the modifier set unchanged.
pub proof fn lemma_modifier_repeat_harmless(m: Modifiers, k: ModifierKey)
    ensures
        with_modifier(with_modifier(m, k), k) == with_modifier(m, k),
{
}

/// Splitting on `+`, scanned left to right with the token built so far.
pub open spec fn split_acc(s: Seq<char>, cur: Seq<char>) -> Seq<Seq<char>>
    decreases s.len(),
{
    if s.len() == 0 {
        seq![cur]
    } else if s[0] == '+' {
        seq![cur] + split_acc(s.drop_first(), Seq::empty())
    } else {
        split_acc(s.drop_first(), cur.push(s[0]))
    }
}

/// The `+`-separated pieces of a specification, in order. The empty
/// specification yields one empty piece.
pub open spec fn split_plus(s: Seq<char>) -> Seq<Seq<char>> {
    split_acc(s, Seq::empty())
}

/// Leading whitespace removed.
pub open spec fn trim_front(s: Seq<char>) -> Seq<char>
    decreases s.len(),
{
    if s.len() > 0 && is_space_char(s[0]) {
        trim_front(s.drop_first())
    } else {
        s
    }
}

/// Trailing whitespace removed.
pub open spec fn trim_back(s: Seq<char>) -> Seq<char>
    decreases s.len(),
{
    if s.len() > 0 && is_space_char(s[s.len() - 1]) {
        trim_back(s.drop_last())
    } else {
        s
    }
}

/// Whitespace removed from both ends.
pub open spec fn trim(s: Seq<char>) -> Seq<char> {
    trim_back(trim_front(s))
}

/// The modifier a trimmed token names, if any. Matching is case-sensitive,
/// as only these exact names are recognized.
pub open spec fn modifier_of(t: Seq<char>) -> Option<ModifierKey> {
    if t == "Ctrl"@ || t == "Control"@ {
        Some(ModifierKey::Ctrl)
    } else if t == "Shift"@ {
        Some(ModifierKey::Shift)
    } else if t == "Alt"@ {
        Some(ModifierKey::Alt)
    } else if t == "Meta"@ || t == "Win"@ {
        Some(ModifierKey::Meta)
    } else {
        None
    }
}

/// The key an ASCII-uppercased token names, if any.
pub open spec fn key_of_upper(u: Seq<char>) -> Option<KeyCode> {
    if u == "A"@ {
        Some(KeyCode::A)
    } else if u == "B"@ {
        Some(KeyCode::B)
    } else if u == "C"@ {
        Some(KeyCode::C)
    } else if u == "D"@ {
        Some(KeyCode::D)
    } else if u == "E"@ {
        Some(KeyCode::E)
    } else if u == "F"@ {
        Some(KeyCode::F)
    } else if u == "G"@ {
        Some(KeyCode::G)
    } else if u == "H"@ {
        Some(KeyCode::H)
    } else if u == "I"@ {
        Some(KeyCode::I)
    } else if u == "J"@ {
        Some(KeyCode::J)
    } else if u == "K"@ {
        Some(KeyCode::K)
    } else if u == "L"@ {
        Some(KeyCode::L)
    } else if u == "M"@ {
        Some(KeyCode::M)
    } else if u == "N"@ {
        Some(KeyCode::N)
    } else if u == "O"@ {
        Some(KeyCode::O)
    } else if u == "P"@ {
        Some(KeyCode::P)
    } else if u == "Q"@ {
        Some(KeyCode::Q)
    } else if u == "R"@ {
        Some(KeyCode::R)
    } else if u == "S"@ {
        Some(KeyCode::S)
    } else if u == "T"@ {
        Some(KeyCode::T)
    } else if u == "U"@ {
        Some(KeyCode::U)
    } else if u == "V"@ {
        Some(KeyCode::V)
    } else if u == "W"@ {
        Some(KeyCode::W)
    } else if u == "X"@ {
        Some(KeyCode::X)
    } else if u == "Y"@ {
        Some(KeyCode::Y)
    } else if u == "Z"@ {
        Some(KeyCode::Z)
    } else if u == "0"@ {
        Some(KeyCode::D0)
    } else if u == "1"@ {
        Some(KeyCode::D1)
    } else if u == "2"@ {
        Some(KeyCode::D2)
    } else if u == "3"@ {
        Some(KeyCode::D3)
    } else if u == "4"@ {
        Some(KeyCode::D4)
    } else if u == "5"@ {
        Some(KeyCode::D5)
    } else if u == "6"@ {
        Some(KeyCode::D6)
    } else if u == "7"@ {
        Some(KeyCode::D7)
    } else if u == "8"@ {
        Some(KeyCode::D8)
    } else if u == "9"@ {
        Some(KeyCode::D9)
    } else if u == "F1"@ {
        Some(KeyCode::F1)
    } else if u == "F2"@ {
        Some(KeyCode::F2)
    } else if u == "F3"@ {
        Some(KeyCode::F3)
    } else if u == "F4"@ {
        Some(KeyCode::F4)
    } else if u == "F5"@ {
        Some(KeyCode::F5)
    } else if u == "F6"@ {
        Some(KeyCode::F6)
    } else if u == "F7"@ {
        Some(KeyCode::F7)
    } else if u == "F8"@ {
        Some(KeyCode::F8)
    } else if u == "F9"@ {
        Some(KeyCode::F9)
    } else if u == "F10"@ {
        Some(KeyCode::F10)
    } else if u == "F11"@ {
        Some(KeyCode::F11)
    } else if u == "F12"@ {
        Some(KeyCode::F12)
    } else {
        None
    }
}

/// The key a trimmed token names, after case folding, if any.
pub open spec fn key_of(t: Seq<char>) -> Option<KeyCode> {
    key_of_upper(uppercase(t))
}

/// The fold over the remaining tokens: modifiers accumulate, the first key
/// is kept, a second key or an unrecognized token is an error, and a
/// missing key is reported once all tokens are consumed.
pub open spec fn parse_tokens(toks: Seq<Seq<char>>, mods: Modifiers, key: Option<KeyCode>) -> Result<
    Binding,
    ParseError,
>
    decreases toks.len(),
{
    if toks.len() == 0 {
        match key {
            Some(k) => Ok(Binding { mods, key: k }),
            None => Err(ParseError::NoKey),
        }
    } else {
        let t = trim(toks[0]);
        match modifier_of(t) {
            Some(m) => parse_tokens(toks.drop_first(), with_modifier(mods, m), key),
            None => {
                if key is Some {
                    Err(ParseError::MultipleKeys)
                } else {
                    match key_of(t) {
                        Some(k) => parse_tokens(toks.drop_first(), mods, Some(k)),
                        None => Err(ParseError::UnknownKey),
                    }
                }
            },
        }
    }
}

/// What a shortcut specification parses to.
pub open spec fn spec_parse(s: Seq<char>) -> Result<Binding, ParseError> {
    parse_tokens(split_plus(s), no_modifiers(), None)
}

/// The views of a list of character buffers.
pub open spec fn views_of(ts: Seq<Vec<char>>) -> Seq<Seq<char>> {
    ts.map(|i: int, v: Vec<char>| v@)
}

fn split_tokens(chars: &Vec<char>) -> (r: Vec<Vec<char>>)
    ensures
        views_of(r@) == split_plus(chars@),
{
    let mut toks: Vec<Vec<char>> = Vec::new();
    let mut cur: Vec<char> = Vec::new();
    let mut i: usize = 0;
    proof {
        assert(chars@.skip(0) =~= chars@);
        assert(views_of(toks@) =~= Seq::<Seq<char>>::empty());
        assert(views_of(toks@) + split_acc(chars@, cur@) =~= split_acc(chars@, cur@));
    }
    while i < chars.len()
        invariant
            i <= chars@.len(),
            split_plus(chars@) == views_of(toks@) + split_acc(chars@.skip(i as int), cur@),
        decreases chars@.len() - i,
    {
        let ghost toks0 = toks@;
        let ghost cur0 = cur@;
        let c = chars[i];
        proof {
            assert(chars@.skip(i as int)[0] == chars@[i as int]);
            assert(chars@.skip(i as int).drop_first() =~= chars@.skip(i as int + 1));
        }
        if c == '+' {
            toks.push(cur);
            cur = Vec::new();
            proof {
                assert(views_of(toks@) =~= views_of(toks0).push(cur0));
                assert(split_acc(chars@.skip(i as int), cur0) == seq![cur0] + split_acc(
                    chars@.skip(i as int + 1),
                    Seq::empty(),
                ));
                assert(views_of(toks0) + (seq![cur0] + split_acc(
                    chars@.skip(i as int + 1),
                    Seq::empty(),
                )) =~= views_of(toks@) + split_acc(chars@.skip(i as int + 1), cur@));
            }
        } else {
            cur.push(c);
            proof {
                assert(split_acc(chars@.skip(i as int), cur0) == split_acc(
                    chars@.skip(i as int + 1),
                    cur0.push(c),
                ));
            }
        }
        i = i + 1;
    }
    proof {
        assert(chars@.skip(i as int) =~= Seq::<char>::empty());
        assert(split_acc(chars@.skip(i as int), cur@) == seq![cur@]);
    }
    let ghost toks1 = toks@;
    let ghost cur1 = cur@;
    toks.push(cur);
    proof {
        assert(views_of(toks@) =~= views_of(toks1).push(cur1));
        assert(views_of(toks1) + seq![cur1] =~= views_of(toks1).push(cur1));
    }
    toks
}

fn trim_token(t: &Vec<char>) -> (r: Vec<char>)
    ensures
        r@ == trim(t@),
{
    let mut i: usize = 0;
    proof {
        assert(t@.skip(0) =~= t@);
    }
    while i < t.len() && is_space(t[i])
        invariant
            i <= t@.len(),
            trim_front(t@) == trim_front(t@.skip(i as int)),
        decreases t@.len() - i,
    {
        proof {
            assert(t@.skip(i as int)[0] == t@[i as int]);
            assert(t@.skip(i as int).drop_first() =~= t@.skip(i as int + 1));
            assert(trim_front(t@.skip(i as int)) == trim_front(t@.skip(i as int + 1)));
        }
        i = i + 1;
    }
    proof {
        if i < t@.len() {
            assert(t@.skip(i as int)[0] == t@[i as int]);
            assert(trim_front(t@.skip(i as int)) == t@.skip(i as int));
        } else {
            assert(t@.skip(i as int) =~= Seq::<char>::empty());
            assert(trim_front(t@.skip(i as int)) == t@.skip(i as int));
        }
    }
    let mut v: Vec<char> = Vec::new();
    let mut k: usize = i;
    while k < t.len()
        invariant
            i <= k <= t@.len(),
            v@ =~= t@.subrange(i as int, k as int),
        decreases t@.len() - k,
    {
        v.push(t[k]);
        k = k + 1;
        proof {
            assert(v@ =~= t@.subrange(i as int, k as int));
        }
    }
    proof {
        assert(v@ =~= t@.skip(i as int));
        assert(trim(t@) == trim_back(v@));
    }
    while v.len() > 0 && is_space(v[v.len() - 1])
        invariant
            trim(t@) == trim_back(v@),
        decreases v@.len(),
    {
        proof {
            assert(v@[v@.len() - 1] == v@.last());
            assert(trim_back(v@) == trim_back(v@.drop_last()));
        }
        v.pop();
    }
    proof {
        assert(trim_back(v@) == v@);
    }
    v
}

/// Whether the buffer holds exactly the characters of the given string.
fn token_is(t: &Vec<char>, w: &str) -> (r: bool)
    ensures
        r == (t@ == w@),
{
    let n: usize = w.unicode_len();
    if t.len() != n {
        proof {
            assert(t@ != w@);
        }
        return false;
    }
    let mut i: usize = 0;
    while i < n
        invariant
            i <= n,
            n == w@.len(),
            n == t@.len(),
            forall|k: int| 0 <= k < i ==> t@[k] == w@[k],
        decreases n - i,
    {
        let c = w.get_char(i);
        if t[i] != c {
            proof {
                assert(t@[i as int] != w@[i as int]);
            }
            return false;
        }
        i = i + 1;
    }
    proof {
        assert(t@ =~= w@);
    }
    true
}

fn modifier_of_token(t: &Vec<char>) -> (r: Option<ModifierKey>)
    ensures
        r == modifier_of(t@),
{
    if token_is(t, "Ctrl") || token_is(t, "Control") {
        Some(ModifierKey::Ctrl)
    } else if token_is(t, "Shift") {
        Some(ModifierKey::Shift)
    } else if token_is(t, "Alt") {
        Some(ModifierKey::Alt)
    } else if token_is(t, "Meta") || token_is(t, "Win") {
        Some(ModifierKey::Meta)
    } else {
        None
    }
}

fn uppercase_token(t: &Vec<char>) -> (r: Vec<char>)
    ensures
        r@ == uppercase(t@),
{
    let mut v: Vec<char> = Vec::new();
    let mut i: usize = 0;
    while i < t.len()
        invariant
            i <= t@.len(),
            v@.len() == i,
            forall|k: int| 0 <= k < i ==> v@[k] == upper_char(t@[k]),
        decreases t@.len() - i,
    {
        v.push(to_upper(t[i]));
        i = i + 1;
    }
    proof {
        assert(v@ =~= uppercase(t@));
    }
    v
}

fn key_of_token(t: &Vec<char>) -> (r: Option<KeyCode>)
    ensures
        r == key_of(t@),
{
    let u = uppercase_token(t);
    if token_is(&u, "A") {
        Some(KeyCode::A)
    } else if token_is(&u, "B") {
        Some(KeyCode::B)
    } else if token_is(&u, "C") {
        Some(KeyCode::C)
    } else if token_is(&u, "D") {
        Some(KeyCode::D)
    } else if token_is(&u, "E") {
        Some(KeyCode::E)
    } else if token_is(&u, "F") {
        Some(KeyCode::F)
    } else if token_is(&u, "G") {
        Some(KeyCode::G)
    } else if token_is(&u, "H") {
        Some(KeyCode::H)
    } else if token_is(&u, "I") {
        Some(KeyCode::I)
    } else if token_is(&u, "J") {
        Some(KeyCode::J)
    } else if token_is(&u, "K") {
        Some(KeyCode::K)
    } else if token_is(&u, "L") {
        Some(KeyCode::L)
    } else if token_is(&u, "M") {
        Some(KeyCode::M)
    } else if token_is(&u, "N") {
        Some(KeyCode::N)
    } else if token_is(&u, "O") {
        Some(KeyCode::O)
    } else if token_is(&u, "P") {
        Some(KeyCode::P)
    } else if token_is(&u, "Q") {
        Some(KeyCode::Q)
    } else if token_is(&u, "R") {
        Some(KeyCode::R)
    } else if token_is(&u, "S") {
        Some(KeyCode::S)
    } else if token_is(&u, "T") {
        Some(KeyCode::T)
    } else if token_is(&u, "U") {
        Some(KeyCode::U)
    } else if token_is(&u, "V") {
        Some(KeyCode::V)
    } else if token_is(&u, "W") {
        Some(KeyCode::W)
    } else if token_is(&u, "X") {
        Some(KeyCode::X)
    } else if token_is(&u, "Y") {
        Some(KeyCode::Y)
    } else if token_is(&u, "Z") {
        Some(KeyCode::Z)
    } else if token_is(&u, "0") {
        Some(KeyCode::D0)
    } else if token_is(&u, "1") {
        Some(KeyCode::D1)
    } else if token_is(&u, "2") {
        Some(KeyCode::D2)
    } else if token_is(&u, "3") {
        Some(KeyCode::D3)
    } else if token_is(&u, "4") {
        Some(KeyCode::D4)
    } else if token_is(&u, "5") {
        Some(KeyCode::D5)
    } else if token_is(&u, "6") {
        Some(KeyCode::D6)
    } else if token_is(&u, "7") {
        Some(KeyCode::D7)
    } else if token_is(&u, "8") {
        Some(KeyCode::D8)
    } else if token_is(&u, "9") {
        Some(KeyCode::D9)
    } else if token_is(&u, "F1") {
        Some(KeyCode::F1)
    } else if token_is(&u, "F2") {
        Some(KeyCode::F2)
    } else if token_is(&u, "F3") {
        Some(KeyCode::F3)
    } else if token_is(&u, "F4") {
        Some(KeyCode::F4)
    } else if token_is(&u, "F5") {
        Some(KeyCode::F5)
    } else if token_is(&u, "F6") {
        Some(KeyCode::F6)
    } else if token_is(&u, "F7") {
        Some(KeyCode::F7)
    } else if token_is(&u, "F8") {
        Some(KeyCode::F8)
    } else if token_is(&u, "F9") {
        Some(KeyCode::F9)
    } else if token_is(&u, "F10") {
        Some(KeyCode::F10)
    } else if token_is(&u, "F11") {
        Some(KeyCode::F11)
    } else if token_is(&u, "F12") {
        Some(KeyCode::F12)
    } else {
        None
    }
}

/// The key a single token names, after case folding but with no
/// trimming: a token with surrounding whitespace is unrecognized. The
/// parser trims each token before it consults this matcher.
pub fn string_to_code(key: &str) -> (r: Result<KeyCode, ParseError>)
    ensures
        key_of(key@) matches Some(k) ==> r == Ok::<KeyCode, ParseError>(k),
        key_of(key@) is None ==> r == Err::<KeyCode, ParseError>(ParseError::UnknownKey),
{
    let chars = crate::text::chars_of_str(key);
    match key_of_token(&chars) {
        Some(k) => Ok(k),
        None => Err(ParseError::UnknownKey),
    }
}

/// Parses a shortcut specification: split on `+`, trim each token, collect
/// modifiers as a set, and require exactly one recognized key token.
pub fn parse_shortcut(text: &str) -> (r: Result<Binding, ParseError>)
    ensures
        r == spec_parse(text@),
{
    let chars = crate::text::chars_of_str(text);
    let toks = split_tokens(&chars);
    let mut mods = Modifiers::none();
    let mut key: Option<KeyCode> = None;
    let mut i: usize = 0;
    proof {
        assert(views_of(toks@).skip(0) =~= views_of(toks@));
    }
    while i < toks.len()
        invariant
            i <= toks@.len(),
            spec_parse(text@) == parse_tokens(views_of(toks@).skip(i as int), mods, key),
        decreases toks@.len() - i,
    {
        let ghost rest = views_of(toks@).skip(i as int);
        proof {
            assert(rest.len() == toks@.len() - i);
            assert(rest[0] == views_of(toks@)[i as int]);
            assert(views_of(toks@)[i as int] == toks@[i as int]@);
            assert(rest.drop_first() =~= views_of(toks@).skip(i as int + 1));
        }
        let t = trim_token(&toks[i]);
        match modifier_of_token(&t) {
            Some(m) => {
                match m {
                    ModifierKey::Ctrl => {
                        mods.ctrl = true;
                    },
                    ModifierKey::Shift => {
                        mods.shift = true;
                    },
                    ModifierKey::Alt => {
                        mods.alt = true;
                    },
                    ModifierKey::Meta => {
                        mods.meta = true;
                    },
                }
            },
            None => {
                if key.is_some() {
                    proof {
                        assert(parse_tokens(rest, mods, key) == Err::<Binding, ParseError>(
                            ParseError::MultipleKeys,
                        ));
                    }
                    return Err(ParseError::MultipleKeys);
                }
                match key_of_token(&t) {
                    Some(k) => {
                        key = Some(k);
                    },
                    None => {
                        proof {
                            assert(parse_tokens(rest, mods, key) == Err::<Binding, ParseError>(
                                ParseError::UnknownKey,
                            ));
                        }
                        return Err(ParseError::UnknownKey);
                    },
                }
            },
        }
        i = i + 1;
    }
    proof {
        assert(views_of(toks@).skip(i as int) =~= Seq::<Seq<char>>::empty());
    }
    match key {
        Some(k) => Ok(Binding { mods, key: k }),
        None => Err(ParseError::NoKey),
    }
}

} // verus!
