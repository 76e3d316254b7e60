//! Account identifiers, held inline.
use vstd::prelude::*;

verus! {

/// Longest account id, in bytes.
pub const MAX_ACCOUNT_ID_LEN: usize = 64;

/// Lower case letters and digits.
pub open spec fn is_alphanumeric(c: char) -> bool {
    ('a' <= c && c <= 'z') || ('0' <= c && c <= '9')
}

/// The characters that join two alphanumeric runs.
pub open spec fn is_separator(c: char) -> bool {
    c == '-' || c == '_' || c == '.'
}

/// The account id grammar: 2 to 64 characters, alphanumeric runs joined by single separators.
pub open spec fn is_account_id(s: Seq<char>) -> bool {
    &&& 2 <= s.len() <= 64
    &&& forall|i: int| 0 <= i < s.len() ==> is_alphanumeric(#[trigger] s[i]) || is_separator(s[i])
    &&& is_alphanumeric(s[0])
    &&& is_alphanumeric(s[s.len() - 1])
    &&& forall|i: int, j: int| 0 <= i && j == i + 1 && j < s.len() && is_separator(#[trigger] s[i]) ==> !is_separator(#[trigger] s[j])
}

/// Asks the `FromStr` of `near_sdk::AccountId` whether the text is an account id. The grammar is the one
/// that its validation walks: length bounds, the alphabet, and no separator at an end or next to
/// another.
#[verifier::external_body]
fn parses_as_account_id(text: &str) -> (r: bool)
    ensures
        r == is_account_id(text@),
{
    text.parse::<near_sdk::AccountId>().is_ok()
}

/// Turns ASCII bytes into text through `String::from_utf8`, which keeps each ASCII byte as the
/// character of the same number.
#[verifier::external_body]
pub(crate) fn ascii_text(bytes: Vec<u8>) -> (r: String)
    requires
        forall|i: int| 0 <= i < bytes@.len() ==> bytes@[i] < 128,
    ensures
        r@ == bytes@.map_values(|b: u8| b as char),
{
    String::from_utf8(bytes).unwrap()
}

/// A valid account id. The unused tail of the buffer is zero, so equal texts are equal values.
#[derive(Clone, Copy, Debug)]
pub struct AccountId {
    bytes: [u8; 64],
    len: u8,
}

impl View for AccountId {
    type V = Seq<char>;

    closed spec fn view(&self) -> Seq<char> {
        Seq::new(self.len as nat, |i: int| self.bytes[i] as char)
    }
}

impl PartialEq for AccountId {
    fn eq(&self, other: &Self) -> (r: bool) {
        proof {
            use_type_invariant(self);
            use_type_invariant(other);
        }
        if self.len != other.len {
            return false;
        }
        let mut i: usize = 0;
        while i < self.len as usize
            invariant
                i <= self.len <= 64,
                forall|k: int| 0 <= k < i ==> self.bytes@[k] == other.bytes@[k],
            decreases self.len - i,
        {
            if self.bytes[i] != other.bytes[i] {
                return false;
            }
            i += 1;
        }
        assert forall|k: int| 0 <= k < 64 implies self.bytes@[k] == other.bytes@[k] by {
            if k >= self.len {
                assert(self.bytes[k] == 0);
                assert(other.bytes[k] == 0);
            }
        }
        assert(self.bytes =~= other.bytes);
        true
    }
}

impl vstd::std_specs::cmp::PartialEqSpecImpl for AccountId {
    open spec fn obeys_eq_spec() -> bool {
        true
    }

    open spec fn eq_spec(&self, other: &Self) -> bool {
        *self == *other
    }
}

impl Eq for AccountId {

}

impl AccountId {
    #[verifier::type_invariant]
    pub closed spec fn valid(self) -> bool {
        &&& self.len <= 64
        &&& is_account_id(self@)
        &&& forall|i: int| 0 <= i < self.len ==> #[trigger] self.bytes[i] < 128
        &&& forall|i: int| self.len <= i < 64 ==> #[trigger] self.bytes[i] == 0
    }

    /// The account id whose text is `s`.
    pub closed spec fn of(s: Seq<char>) -> AccountId {
        choose|id: AccountId| id.valid() && id@ == s
    }

    /// An account id is determined by its text, and its text follows the grammar.
    pub proof fn lemma_text_determines(self)
        requires
            self.valid(),
        ensures
            is_account_id(self@),
            AccountId::of(self@) == self,
    {
        let other = AccountId::of(self@);
        assert(other.valid() && other@ == self@);
        assert forall|k: int| 0 <= k < 64 implies self.bytes@[k] == other.bytes@[k] by {
            if k < self.len {
                assert(self@[k] == other@[k]);
                assert(self.bytes[k] < 128);
                assert(other.bytes[k] < 128);
            } else {
                assert(self@.len() == other@.len());
                assert(self.bytes[k] == 0);
                assert(other.bytes[k] == 0);
            }
        }
        assert(self.bytes =~= other.bytes);
        assert(self@.len() == other@.len());
    }

    /// Reads an account id.
    pub fn parse(text: &str) -> (r: Option<AccountId>)
        ensures
            r == (if is_account_id(text@) {
                Some(AccountId::of(text@))
            } else {
                None
            }),
            r matches Some(id) ==> id@ == text@ && id.valid(),
    {
        if !parses_as_account_id(text) {
            return None;
        }
        let src = text.as_bytes();
        proof {
            assert(vstd::utf8::is_ascii_chars(text@)) by {
                assert forall|i: int| 0 <= i < text@.len() implies '\0' <= #[trigger] text@[i] <= '\u{7f}' by {
                    assert(is_alphanumeric(text@[i]) || is_separator(text@[i]));
                }
            }
            vstd::utf8::is_ascii_chars_encode_utf8(text@);
            assert forall|i: int| 0 <= i < text@.len() implies #[trigger] src@[i] < 128 && src@[i] as char == text@[i] by {
                assert('\0' <= text@[i] <= '\u{7f}');
                assert(text@[i] as u8 == src@[i]);
            }
        }
        let mut bytes: [u8; 64] = [0u8; 64];
        let mut i: usize = 0;
        while i < src.len()
            invariant
                src@.len() <= 64,
                i <= src@.len(),
                forall|k: int| 0 <= k < i ==> bytes@[k] == src@[k],
                forall|k: int| i <= k < 64 ==> bytes@[k] == 0,
            decreases src@.len() - i,
        {
            bytes[i] = src[i];
            i += 1;
        }
        let ghost text_of = AccountId { bytes, len: src@.len() as u8 };
        assert(text_of@ =~= text@);
        let id = AccountId { bytes, len: src.len() as u8 };
        proof {
            id.lemma_text_determines();
        }
        Some(id)
    }

    /// The id as text.
    pub fn text(&self) -> (r: String)
        ensures
            r@ == self@,
            is_account_id(r@),
    {
        proof {
            use_type_invariant(self);
        }
        let mut bytes: Vec<u8> = Vec::new();
        let mut i: usize = 0;
        while i < self.len as usize
            invariant
                i <= self.len <= 64,
                bytes@.len() == i,
                self.valid(),
                forall|k: int| 0 <= k < i ==> bytes@[k] == self.bytes@[k] && bytes@[k] < 128,
            decreases self.len - i,
        {
            assert(self.bytes[i as int] < 128);
            bytes.push(self.bytes[i]);
            i += 1;
        }
        let r = ascii_text(bytes);
        assert(r@ =~= self@);
        r
    }

    /// How many characters the id has.
    pub fn text_len(&self) -> (r: usize)
        ensures
            r == self@.len(),
            2 <= r <= 64,
    {
        proof {
            use_type_invariant(self);
        }
        self.len as usize
    }
}

/// The account a label names under its top level account.
pub open spec fn sub_account_text(tla: AccountId, name: Seq<char>) -> Seq<char> {
    name.push('.') + tla@
}

/// The id of the account `name` under `tla`.
pub open spec fn sub_account_id(tla: AccountId, name: Seq<char>) -> AccountId {
    AccountId::of(sub_account_text(tla, name))
}

/// The account that `name` under `tla` stands for, if that is an account id at all.
pub open spec fn named_account_of(tla: AccountId, name: Seq<char>) -> Option<AccountId> {
    if is_account_id(sub_account_text(tla, name)) {
        Some(sub_account_id(tla, name))
    } else {
        None
    }
}

/// The full name of `name` under `tla_id`, as text. Any label has one, also where the two make no account
/// id.
pub fn sub_account_key(tla_id: &AccountId, name: &str) -> (r: String)
    ensures
        r@ == sub_account_text(*tla_id, name@),
{
    let mut text = String::from_str(name);
    text.append(".");
    text.append(tla_id.text().as_str());
    proof {
        reveal_strlit(".");
        assert(text@ =~= sub_account_text(*tla_id, name@));
    }
    text
}

/// The full account id of `name` under `tla`, or nothing where the two do not make one.
pub fn named_account(tla: &AccountId, name: &str) -> (r: Option<AccountId>)
    ensures
        r == named_account_of(*tla, name@),
        r matches Some(id) ==> id@ == sub_account_text(*tla, name@) && id.valid(),
{
    let text = sub_account_key(tla, name);
    AccountId::parse(text.as_str())
}

/// A label under a top level account. Most are accounts; a text that is no account id, such as one
/// that is too long, is kept as the two parts that it is made of.
#[derive(Debug)]
pub enum FullName {
    Account(AccountId),
    Text { tla_id: AccountId, name: String },
}

/// What `name` under `tla_id` is called in full.
pub open spec fn full_name_of(tla_id: AccountId, name: String) -> FullName {
    match named_account_of(tla_id, name@) {
        Some(key) => FullName::Account(key),
        None => FullName::Text { tla_id, name },
    }
}

impl FullName {
    pub fn of(tla_id: AccountId, name: String) -> (r: FullName)
        ensures
            r == full_name_of(tla_id, name),
    {
        match named_account(&tla_id, name.as_str()) {
            Some(key) => FullName::Account(key),
            None => FullName::Text { tla_id, name },
        }
    }

    /// The name as text.
    pub fn text(&self) -> (r: String)
        ensures
            r@ == (match *self {
                FullName::Account(id) => id@,
                FullName::Text { tla_id, name } => sub_account_text(tla_id, name@),
            }),
    {
        match self {
            FullName::Account(id) => id.text(),
            FullName::Text { tla_id, name } => sub_account_key(tla_id, name.as_str()),
        }
    }
}

/// What stands before the dot and the top level account in a text that ends in the two.
pub open spec fn label_of(text: Seq<char>, tla: Seq<char>) -> Option<Seq<char>> {
    let cut = text.len() - tla.len() - 1;
    if cut >= 0 && text.subrange(cut, text.len() as int) == seq!['.'] + tla {
        Some(text.subrange(0, cut))
    } else {
        None
    }
}

/// The label of `id` under `tla`, if it stands there.
pub fn label_under(id: &AccountId, tla: &AccountId) -> (r: Option<String>)
    ensures
        match r {
            Some(label) => label_of(id@, tla@) == Some(label@),
            None => label_of(id@, tla@) is None,
        },
{
    proof {
        use_type_invariant(id);
        use_type_invariant(tla);
    }
    let n: usize = id.len as usize;
    let m: usize = tla.len as usize;
    if n < m + 1 {
        return None;
    }
    let cut: usize = n - m - 1;
    let ghost tail = id@.subrange(cut as int, n as int);
    assert(id.bytes[cut as int] < 128 && tail[0] == id.bytes[cut as int] as char);
    if id.bytes[cut] as char != '.' {
        assert((seq!['.'] + tla@)[0] == '.');
        return None;
    }
    let mut i: usize = 0;
    while i < m
        invariant
            i <= m == tla.len,
            n == id.len <= 64,
            cut + m + 1 == n,
            id.valid(),
            tla.valid(),
            tail == id@.subrange(cut as int, n as int),
            forall|k: int| 0 <= k < i ==> tail[k + 1] == #[trigger] tla@[k],
        decreases m - i,
    {
        assert(id.bytes[cut + 1 + i] < 128 && tla.bytes[i as int] < 128);
        assert(tail[i + 1] == id@[cut + 1 + i]);
        if id.bytes[cut + 1 + i] != tla.bytes[i] {
            assert((seq!['.'] + tla@)[i + 1] == tla@[i as int]);
            assert(tail[i + 1] != tla@[i as int]);
            return None;
        }
        i += 1;
    }
    proof {
        assert forall|k: int| 0 <= k < tail.len() implies tail[k] == (seq!['.'] + tla@)[k] by {
            if k > 0 {
                assert(tail[(k - 1) + 1] == tla@[k - 1]);
            }
        }
        assert(tail =~= seq!['.'] + tla@);
    }
    let mut bytes: Vec<u8> = Vec::new();
    let mut i: usize = 0;
    while i < cut
        invariant
            i <= cut < id.len <= 64,
            bytes@.len() == i,
            id.valid(),
            forall|k: int| 0 <= k < i ==> bytes@[k] == id.bytes@[k] && bytes@[k] < 128,
        decreases cut - i,
    {
        assert(id.bytes[i as int] < 128);
        bytes.push(id.bytes[i]);
        i += 1;
    }
    let r = ascii_text(bytes);
    assert(r@ =~= id@.subrange(0, cut as int));
    Some(r)
}

/// A name's label under its top level account is the one it was made of.
pub proof fn label_of_a_full_name(tla: AccountId, name: Seq<char>)
    ensures
        label_of(sub_account_text(tla, name), tla@) == Some(name),
{
    let t = sub_account_text(tla, name);
    let cut = t.len() - tla@.len() - 1;
    assert(t.subrange(cut, t.len() as int) =~= seq!['.'] + tla@);
    assert(t.subrange(0, cut) =~= name);
}

/// Reading an account id back from its text gives the id.
pub proof fn text_reads_back(id: AccountId)
    requires
        id.valid(),
    ensures
        is_account_id(id@),
        AccountId::of(id@) == id,
{
    id.lemma_text_determines();
}

} // verus!
