//! What the bot remembers of each conversation, and the form in which it is stored.
use crate::codec::{
    byte_span, deserialize_flag_and_number, flag_and_number, le_bytes, le_value,
    lemma_le_round_trip,
    read_flag_and_number, serialize_flag_and_number, serialize_tagged_array,
    serialize_tagged_slice, tagged_array, tagged_slice,
};
use crate::content::Thread;
use crate::quick_hash::{in_order, ByteOrder, HashInput, QuickHash};
use crate::text::option_view;
use std::collections::hash_map::DefaultHasher;
use vstd::prelude::*;
use vstd::std_specs::hash::*;

verus! {

/// One of the speech recognition models, by its place in the list of those that there are.
#[derive(Debug, PartialEq, Eq, Clone, Copy, Structural)]
pub struct WhisperModel {
    pub index: u32,
}

/// The speech recognition models that there are: how many, and which is taken where nothing else
/// was chosen.
#[derive(Debug, PartialEq, Eq, Clone, Copy, Structural)]
pub struct ModelCatalog {
    pub count: u32,
    pub default_model: WhisperModel,
}

impl ModelCatalog {
    /// Whether a model is in the list.
    pub open spec fn offers(self, model: WhisperModel) -> bool {
        model.index < self.count
    }
}

/// What the bot remembers of a conversation: whether it was enabled there, and the model that
/// voice messages are transcribed with.
#[derive(Debug, PartialEq, Eq, Clone, Copy, Structural)]
pub struct BotThreadState {
    pub enabled: bool,
    pub whisper_model: WhisperModel,
}

/// A model is hashed as its place in the list, in the machine's own width, the way the standard
/// library hashes a choice without fields.
impl HashInput for WhisperModel {
    open spec fn pieces(&self, order: ByteOrder) -> Seq<Seq<u8>> {
        (self.index as usize).pieces(order)
    }

    fn feed(&self, hasher: &mut DefaultHasher, order: ByteOrder) {
        (self.index as usize).feed(hasher, order)
    }
}

/// The flag is hashed first, then the model.
impl HashInput for BotThreadState {
    open spec fn pieces(&self, order: ByteOrder) -> Seq<Seq<u8>> {
        self.enabled.pieces(order) + self.whisper_model.pieces(order)
    }

    fn feed(&self, hasher: &mut DefaultHasher, order: ByteOrder) {
        let ghost before = hasher@;
        self.enabled.feed(hasher, order);
        self.whisper_model.feed(hasher, order);
        assert(hasher@ =~= before + self.pieces(order));
    }
}

/// The settings of a conversation of which nothing is stored: not enabled, with the default
/// model. Contacts and groups start alike.
pub open spec fn initial_state(catalog: ModelCatalog) -> BotThreadState {
    BotThreadState { enabled: false, whisper_model: catalog.default_model }
}

/// The bytes that stand for settings in the store.
pub open spec fn state_bytes(state: BotThreadState) -> Seq<u8> {
    flag_and_number(state.enabled, state.whisper_model.index)
}

/// The settings that stored bytes stand for, if they stand for any. A model that is not in the
/// list makes the whole unreadable.
pub open spec fn read_state(bytes: Seq<u8>, catalog: ModelCatalog) -> Option<BotThreadState> {
    match read_flag_and_number(bytes) {
        Some((enabled, index)) => {
            if catalog.offers(WhisperModel { index }) {
                Some(BotThreadState { enabled, whisper_model: WhisperModel { index } })
            } else {
                None
            }
        },
        None => None,
    }
}

/// The settings of a conversation, from what the store holds for it: what was stored, where it
/// can be read, and the initial settings otherwise.
pub open spec fn state_of(stored: Option<Seq<u8>>, catalog: ModelCatalog) -> BotThreadState {
    match stored {
        Some(bytes) => match read_state(bytes, catalog) {
            Some(state) => state,
            None => initial_state(catalog),
        },
        None => initial_state(catalog),
    }
}

/// The key under which the settings of a conversation are stored.
pub open spec fn thread_key(thread: Thread) -> Seq<u8> {
    match thread {
        Thread::Contact(uuid) => tagged_slice(0, uuid@),
        Thread::Group(master_key) => tagged_array(1, master_key@),
    }
}

impl BotThreadState {
    /// The settings of a conversation of which nothing is stored.
    pub fn initial(thread: &Thread, catalog: &ModelCatalog) -> (state: BotThreadState)
        ensures
            state == initial_state(*catalog),
    {
        let mut state = BotThreadState { enabled: false, whisper_model: catalog.default_model };
        if let Thread::Group(_) = thread {
            state.enabled = false;
        }
        state
    }

    /// The bytes that stand for the settings in the store.
    pub fn to_bytes(&self) -> (bytes: Vec<u8>)
        ensures
            bytes@ == state_bytes(*self),
    {
        match serialize_flag_and_number(self.enabled, self.whisper_model.index) {
            Ok(bytes) => bytes,
            Err(_) => Vec::new(),
        }
    }

    /// The settings that stored bytes stand for, if they stand for any.
    pub fn from_bytes(bytes: &[u8], catalog: &ModelCatalog) -> (state: Option<BotThreadState>)
        ensures
            state == read_state(bytes@, *catalog),
    {
        match deserialize_flag_and_number(bytes) {
            Ok((enabled, index)) => {
                if index < catalog.count {
                    Some(BotThreadState { enabled, whisper_model: WhisperModel { index } })
                } else {
                    None
                }
            },
            Err(_) => None,
        }
    }
}

impl Thread {
    /// The key under which the settings of the conversation are stored.
    pub fn key(&self) -> (key: Vec<u8>)
        ensures
            key@ == thread_key(*self),
    {
        let encoded = match self {
            Thread::Contact(uuid) => serialize_tagged_slice(0, uuid.as_slice()),
            Thread::Group(master_key) => serialize_tagged_array(1, master_key),
        };
        match encoded {
            Ok(key) => key,
            Err(_) => Vec::new(),
        }
    }

    /// The settings of the conversation, from what the store holds under its key.
    pub fn get(&self, stored: Option<Vec<u8>>, catalog: &ModelCatalog) -> (state: BotThreadState)
        ensures
            state == state_of(option_view(stored), *catalog),
    {
        match stored {
            Some(bytes) => match BotThreadState::from_bytes(bytes.as_slice(), catalog) {
                Some(state) => state,
                None => BotThreadState::initial(self, catalog),
            },
            None => BotThreadState::initial(self, catalog),
        }
    }

    /// The entry that stores settings for the conversation: its key, and the settings' bytes.
    pub fn put(&self, state: BotThreadState) -> (entry: (Vec<u8>, Vec<u8>))
        ensures
            entry.0@ == thread_key(*self),
            entry.1@ == state_bytes(state),
    {
        (self.key(), state.to_bytes())
    }
}

/// What a store holds for a conversation.
pub open spec fn stored_for(store: Map<Seq<u8>, Seq<u8>>, thread: Thread) -> Option<Seq<u8>> {
    if store.dom().contains(thread_key(thread)) {
        Some(store[thread_key(thread)])
    } else {
        None
    }
}

/// The store once settings have been put for a conversation.
pub open spec fn store_after(
    store: Map<Seq<u8>, Seq<u8>>,
    thread: Thread,
    state: BotThreadState,
) -> Map<Seq<u8>, Seq<u8>> {
    store.insert(thread_key(thread), state_bytes(state))
}

/// The bytes of settings are read back as those settings, also where other bytes follow them.
pub proof fn law_state_bytes_round_trip(
    state: BotThreadState,
    catalog: ModelCatalog,
    trailing: Seq<u8>,
)
    requires
        catalog.offers(state.whisper_model),
    ensures
        read_state(state_bytes(state) + trailing, catalog) == Some(state),
        read_state(state_bytes(state), catalog) == Some(state),
{
    let index = state.whisper_model.index;
    let number = le_bytes(index as nat, 4);
    reveal_with_fuel(byte_span, 5);
    lemma_le_round_trip(index as nat, 4);
    let bytes = state_bytes(state) + trailing;
    assert(bytes.subrange(1, 5) =~= number);
    assert(state_bytes(state).subrange(1, 5) =~= number);
}

/// Different conversations have different keys.
pub proof fn law_keys_are_distinct(a: Thread, b: Thread)
    requires
        a != b,
    ensures
        thread_key(a) != thread_key(b),
{
    reveal_with_fuel(byte_span, 9);
    lemma_le_round_trip(0, 4);
    lemma_le_round_trip(1, 4);
    lemma_le_round_trip(16, 8);
    match (a, b) {
        (Thread::Contact(x), Thread::Contact(y)) => {
            if thread_key(a) == thread_key(b) {
                assert(thread_key(a).skip(12) =~= x@);
                assert(thread_key(b).skip(12) =~= y@);
                assert(x =~= y);
            }
        },
        (Thread::Group(x), Thread::Group(y)) => {
            if thread_key(a) == thread_key(b) {
                assert(thread_key(a).skip(4) =~= x@);
                assert(thread_key(b).skip(4) =~= y@);
                assert(x =~= y);
            }
        },
        (Thread::Contact(x), Thread::Group(y)) => {
            assert(thread_key(a).take(4) =~= le_bytes(0, 4));
            assert(thread_key(b).take(4) =~= le_bytes(1, 4));
        },
        (Thread::Group(x), Thread::Contact(y)) => {
            assert(thread_key(a).take(4) =~= le_bytes(1, 4));
            assert(thread_key(b).take(4) =~= le_bytes(0, 4));
        },
    }
}

/// Settings that were put for a conversation are what is got for it, whatever the store held
/// before.
pub proof fn law_get_after_put(
    store: Map<Seq<u8>, Seq<u8>>,
    thread: Thread,
    state: BotThreadState,
    catalog: ModelCatalog,
)
    requires
        catalog.offers(state.whisper_model),
    ensures
        state_of(stored_for(store_after(store, thread, state), thread), catalog) == state,
{
    law_state_bytes_round_trip(state, catalog, Seq::empty());
}

/// To put settings for one conversation leaves those of every other as they were.
pub proof fn law_put_is_per_thread(
    store: Map<Seq<u8>, Seq<u8>>,
    thread: Thread,
    other: Thread,
    state: BotThreadState,
)
    requires
        thread != other,
    ensures
        stored_for(store_after(store, thread, state), other) == stored_for(store, other),
{
    law_keys_are_distinct(thread, other);
}

/// Settings always name a model that there is, provided that the default does.
pub proof fn law_state_names_an_offered_model(stored: Option<Seq<u8>>, catalog: ModelCatalog)
    requires
        catalog.offers(catalog.default_model),
    ensures
        catalog.offers(state_of(stored, catalog).whisper_model),
{
}

/// The key of a conversation with a contact is twelve bytes that say so, and then the bytes of the
/// contact. That of a group is four bytes that say so, and then the group's master key.
pub proof fn law_what_a_key_holds(thread: Thread, key: Vec<u8>)
    requires
        call_ensures(Thread::key, (&thread,), key),
    ensures
        thread matches Thread::Contact(uuid) ==> key@ == seq![
            0u8,
            0,
            0,
            0,
            16,
            0,
            0,
            0,
            0,
            0,
            0,
            0,
        ] + uuid@,
        thread matches Thread::Group(master_key) ==> key@ == seq![1u8, 0, 0, 0] + master_key@,
{
    reveal_with_fuel(le_bytes, 9);
    assert(le_bytes(0, 4) =~= seq![0u8, 0, 0, 0]);
    assert(le_bytes(1, 4) =~= seq![1u8, 0, 0, 0]);
    assert(le_bytes(16, 8) =~= seq![16u8, 0, 0, 0, 0, 0, 0, 0]);
    match thread {
        Thread::Contact(uuid) => {
            assert(le_bytes(0, 4) + le_bytes(16, 8) + uuid@ =~= seq![
                0u8,
                0,
                0,
                0,
                16,
                0,
                0,
                0,
                0,
                0,
                0,
                0,
            ] + uuid@);
        },
        Thread::Group(_) => {},
    }
}

/// Four bytes write a number as the sum of their multiples.
proof fn lemma_four_bytes(bytes: Seq<u8>, n: u32)
    ensures
        bytes.len() == 4 ==> le_value(bytes) == bytes[0] + 256 * bytes[1] + 65536 * bytes[2]
            + 16777216 * bytes[3],
        le_bytes(n as nat, 4).len() == 4,
        n == le_bytes(n as nat, 4)[0] + 256 * le_bytes(n as nat, 4)[1] + 65536 * le_bytes(
            n as nat,
            4,
        )[2] + 16777216 * le_bytes(n as nat, 4)[3],
{
    reveal_with_fuel(le_bytes, 5);
    reveal_with_fuel(le_value, 5);
    if bytes.len() == 4 {
        assert(bytes.skip(1).skip(1) =~= bytes.skip(2));
        assert(bytes.skip(2).skip(1) =~= bytes.skip(3));
        assert(bytes.skip(3).skip(1) =~= bytes.skip(4));
    }
}

/// Settings are written in five bytes: the flag, and then the model's place, least significant
/// byte first. They are read back from bytes of that form, whatever follows those, provided that
/// there is such a model, and from no others.
pub proof fn law_what_settings_are_written_as(
    state: BotThreadState,
    written: Vec<u8>,
    bytes: &[u8],
    catalog: ModelCatalog,
    read: Option<BotThreadState>,
)
    requires
        call_ensures(BotThreadState::to_bytes, (&state,), written),
        call_ensures(BotThreadState::from_bytes, (bytes, &catalog), read),
    ensures
        written@.len() == 5,
        written@[0] == (if state.enabled {
            1u8
        } else {
            0u8
        }),
        state.whisper_model.index == written@[1] + 256 * written@[2] + 65536 * written@[3]
            + 16777216 * written@[4],
        read is Some <==> bytes@.len() >= 5 && bytes@[0] <= 1 && bytes@[1] + 256 * bytes@[2] + 65536
            * bytes@[3] + 16777216 * bytes@[4] < catalog.count,
        read matches Some(found) ==> (found.enabled <==> bytes@[0] == 1)
            && found.whisper_model.index == bytes@[1] + 256 * bytes@[2] + 65536 * bytes@[3]
            + 16777216 * bytes@[4],
{
    lemma_four_bytes(Seq::empty(), state.whisper_model.index);
    if bytes@.len() >= 5 {
        let number = bytes@.subrange(1, 5);
        lemma_four_bytes(number, 0);
        assert(number[0] == bytes@[1] && number[1] == bytes@[2]);
        assert(number[2] == bytes@[3] && number[3] == bytes@[4]);
    }
}

/// A conversation of which nothing readable is stored starts disabled and with the default model,
/// be it with a contact or in a group. What was stored and can be read is what it has.
pub proof fn law_what_settings_are_found(
    thread: Thread,
    stored: Option<Vec<u8>>,
    catalog: ModelCatalog,
    read: Option<BotThreadState>,
    found: BotThreadState,
    first: BotThreadState,
)
    requires
        call_ensures(Thread::get, (&thread, stored, &catalog), found),
        call_ensures(BotThreadState::initial, (&thread, &catalog), first),
        stored is Some ==> exists|bytes: &[u8]|
            bytes@ == stored->0@ && #[trigger] call_ensures(
                BotThreadState::from_bytes,
                (bytes, &catalog),
                read,
            ),
    ensures
        !first.enabled,
        first.whisper_model == catalog.default_model,
        stored is None ==> found == first,
        stored is Some && read is None ==> found == first,
        stored is Some && read is Some ==> found == read->0,
{
}

/// Settings that were put for a conversation are what is got for it, and those of one conversation
/// do not go under the key of another.
pub proof fn law_what_is_put_is_got(
    thread: Thread,
    other: Thread,
    state: BotThreadState,
    another: BotThreadState,
    catalog: ModelCatalog,
    entry: (Vec<u8>, Vec<u8>),
    entry_of_other: (Vec<u8>, Vec<u8>),
    found: BotThreadState,
)
    requires
        call_ensures(Thread::put, (&thread, state), entry),
        call_ensures(Thread::put, (&other, another), entry_of_other),
        call_ensures(Thread::get, (&thread, Some(entry.1), &catalog), found),
        state.whisper_model.index < catalog.count,
    ensures
        found == state,
        thread != other <==> entry.0@ != entry_of_other.0@,
        forall|key: Vec<u8>| #[trigger]
            call_ensures(Thread::key, (&thread,), key) ==> key@ == entry.0@,
{
    law_state_bytes_round_trip(state, catalog, Seq::empty());
    if thread != other {
        law_keys_are_distinct(thread, other);
    }
}

/// The hash of settings is that of two pieces: one byte for the flag, and the model's place in as
/// many bytes as the machine has for a number, in the machine's order.
pub proof fn law_what_is_hashed(state: BotThreadState, order: ByteOrder, hash: u64)
    requires
        call_ensures(<BotThreadState as QuickHash>::hash_in, (&state, order), hash),
    ensures
        exists|place: Seq<u8>|
            {
                &&& hash == DefaultHasher::spec_finish(
                    seq![seq![if state.enabled { 1u8 } else { 0u8 }], place],
                )
                &&& #[trigger] place.len() == usize::BITS / 8
                &&& state.whisper_model.index == (match order {
                    ByteOrder::LittleEndian => le_value(place),
                    ByteOrder::BigEndian => le_value(place.reverse()),
                })
            },
{
    let width = (usize::BITS / 8) as nat;
    let index = state.whisper_model.index as nat;
    let place = in_order(index, width, order);
    reveal_with_fuel(byte_span, 9);
    lemma_le_round_trip(index, width);
    assert(le_bytes(index, width).reverse().reverse() =~= le_bytes(index, width));
    assert(state.pieces(order) =~= seq![seq![if state.enabled { 1u8 } else { 0u8 }], place]);
    assert(place.len() == usize::BITS / 8);
}

} // verus!
