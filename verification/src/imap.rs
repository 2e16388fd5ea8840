//! The mailbox side of a run: the identities of the messages that are
//! already in the folder.

use mail_parser::MessageParser;
use vstd::prelude::*;
use vstd::string::StringExecFns;

verus! {

/// The header field that holds the identity of a message.
pub const MESSAGE_ID_FIELD: &'static str = "MESSAGE-ID";

/// The text of a header field as the mail parser reads it out of the header
/// block of one message; `None` where the block does not parse, has no such
/// field, or the field holds no single text.
pub uninterp spec fn spec_header_text(block: Seq<u8>, field: Seq<char>) -> Option<Seq<char>>;

/// Parses a header block with `MessageParser::parse_headers`, looks the field
/// up with `Message::header` and takes its value with
/// `HeaderValue::into_text`. Each step may give nothing; what comes out
/// depends on the block and the field's name alone.
#[verifier::external_body]
fn header_text(block: &[u8], field: &str) -> (text: Option<String>)
    ensures
        text matches Some(value) ==> spec_header_text(block@, field@) == Some(value@),
        text is None ==> spec_header_text(block@, field@) is None,
{
    MessageParser::default()
        .parse_headers(block)
        .and_then(|message| message.header(field).cloned())
        .and_then(|value| value.into_text())
        .map(|value| value.into_owned())
}

/// The identities of the messages of a folder: a set of strings, held
/// without repetition.
pub struct MessageIds {
    ids: Vec<String>,
}

/// The texts of a sequence of strings.
pub open spec fn texts(ids: Seq<String>) -> Seq<Seq<char>> {
    Seq::new(ids.len(), |i: int| ids[i]@)
}

impl View for MessageIds {
    type V = Set<Seq<char>>;

    closed spec fn view(&self) -> Set<Seq<char>> {
        texts(self.ids@).to_set()
    }
}

impl MessageIds {
    #[verifier::type_invariant]
    spec fn no_repetition(&self) -> bool {
        texts(self.ids@).no_duplicates()
    }

    /// No identities.
    pub fn new() -> (ids: MessageIds)
        ensures
            ids@ == Set::<Seq<char>>::empty(),
    {
        let ids = MessageIds { ids: Vec::new() };
        assert(texts(ids.ids@) =~= Seq::<Seq<char>>::empty());
        assert(ids@ =~= Set::<Seq<char>>::empty());
        ids
    }

    /// Whether `id` is among the identities.
    pub fn contains(&self, id: &str) -> (found: bool)
        ensures
            found == self@.contains(id@),
    {
        let needle = String::from_str(id);
        let mut i: usize = 0;
        while i < self.ids.len()
            invariant
                i <= self.ids.len(),
                needle@ == id@,
                forall|j: int| 0 <= j < i ==> texts(self.ids@)[j] != id@,
            decreases self.ids.len() - i,
        {
            if self.ids[i] == needle {
                assert(texts(self.ids@)[i as int] == id@);
                return true;
            }
            i += 1;
        }
        false
    }

    /// Adds `id`. Says whether it was new.
    pub fn insert(&mut self, id: String) -> (added: bool)
        ensures
            final(self)@ == old(self)@.insert(id@),
            added == !old(self)@.contains(id@),
    {
        if self.contains(id.as_str()) {
            assert(self@.insert(id@) =~= self@);
            false
        } else {
            proof {
                use_type_invariant(&*self);
                let before = texts(self.ids@);
                assert(before.push(id@).no_duplicates()) by {
                    assert forall|a: int, b: int|
                        0 <= a < before.len() + 1 && 0 <= b < before.len() + 1 && a
                            != b implies before.push(id@)[a] != before.push(id@)[b] by {
                        if a < before.len() && b < before.len() {
                        } else if a < before.len() {
                            assert(before.contains(before[a]));
                        } else {
                            assert(before.contains(before[b]));
                        }
                    }
                }
                assert(before.push(id@).to_set() =~= before.to_set().insert(id@)) by {
                    assert forall|x: Seq<char>|
                        before.push(id@).to_set().contains(
                            x,
                        ) == before.to_set().insert(id@).contains(x) by {
                        if before.push(id@).contains(x) {
                            let k = choose|k: int|
                                0 <= k < before.push(id@).len() && before.push(id@)[k] == x;
                            if k < before.len() {
                                assert(before.contains(x));
                            }
                        }
                        if before.contains(x) {
                            let k = choose|k: int| 0 <= k < before.len() && before[k] == x;
                            assert(before.push(id@)[k] == x);
                        }
                        if x == id@ {
                            assert(before.push(id@)[before.len() as int] == x);
                        }
                    }
                }
            }
            let ghost before = texts(self.ids@);
            let ghost text = id@;
            let mut taken = MessageIds::new();
            std::mem::swap(self, &mut taken);
            let mut ids = taken.ids;
            ids.push(id);
            assert(texts(ids@) =~= before.push(text));
            *self = MessageIds { ids };
            true
        }
    }

    /// How many identities there are.
    pub fn len(&self) -> (count: usize)
        ensures
            count == self@.len(),
    {
        proof {
            use_type_invariant(self);
            texts(self.ids@).unique_seq_to_set();
        }
        self.ids.len()
    }
}

/// The identities that the header blocks of a folder's messages hold: the
/// Message-ID of each block that has one.
pub open spec fn spec_message_ids(headers: Seq<Vec<u8>>) -> Set<Seq<char>> {
    Set::new(
        |id: Seq<char>|
            exists|i: int|
                0 <= i < headers.len() && #[trigger] spec_header_text(
                    headers[i]@,
                    MESSAGE_ID_FIELD@,
                ) == Some(id),
    )
}

/// Collects the identities of the messages of a folder from their header
/// blocks. A block without a Message-ID that can be read is passed over.
pub fn list_message_ids(headers: &Vec<Vec<u8>>) -> (ids: MessageIds)
    ensures
        ids@ == spec_message_ids(headers@),
{
    let mut ids = MessageIds::new();
    let mut i: usize = 0;
    while i < headers.len()
        invariant
            i <= headers.len(),
            ids@ == spec_message_ids(headers@.take(i as int)),
        decreases headers.len() - i,
    {
        let ghost seen = headers@.take(i as int);
        let ghost next = headers@.take(i + 1);
        let ghost before = ids@;
        match header_text(headers[i].as_slice(), MESSAGE_ID_FIELD) {
            Some(id) => {
                let ghost text = id@;
                ids.insert(id);
                assert(ids@ =~= spec_message_ids(next)) by {
                    assert forall|x: Seq<char>|
                        before.insert(text).contains(x) == spec_message_ids(next).contains(x) by {
                        if spec_message_ids(next).contains(x) {
                            let k = choose|k: int|
                                0 <= k < next.len() && #[trigger] spec_header_text(
                                    next[k]@,
                                    MESSAGE_ID_FIELD@,
                                ) == Some(x);
                            if k < i {
                                assert(seen[k] == next[k]);
                                assert(spec_message_ids(seen).contains(x));
                            }
                        }
                        if before.contains(x) {
                            let k = choose|k: int|
                                0 <= k < seen.len() && #[trigger] spec_header_text(
                                    seen[k]@,
                                    MESSAGE_ID_FIELD@,
                                ) == Some(x);
                            assert(seen[k] == next[k]);
                        }
                        if x == text {
                            assert(next[i as int] == headers@[i as int]);
                        }
                    }
                }
            },
            None => {
                assert(ids@ =~= spec_message_ids(next)) by {
                    assert forall|x: Seq<char>|
                        before.contains(x) == spec_message_ids(next).contains(x) by {
                        if spec_message_ids(next).contains(x) {
                            let k = choose|k: int|
                                0 <= k < next.len() && #[trigger] spec_header_text(
                                    next[k]@,
                                    MESSAGE_ID_FIELD@,
                                ) == Some(x);
                            assert(next[i as int] == headers@[i as int]);
                            assert(seen[k] == next[k]);
                            assert(spec_message_ids(seen).contains(x));
                        }
                        if before.contains(x) {
                            let k = choose|k: int|
                                0 <= k < seen.len() && #[trigger] spec_header_text(
                                    seen[k]@,
                                    MESSAGE_ID_FIELD@,
                                ) == Some(x);
                            assert(seen[k] == next[k]);
                        }
                    }
                }
            },
        }
        i += 1;
    }
    assert(headers@.take(headers.len() as int) =~= headers@);
    ids
}

} // verus!
