use sigbot::bot::thread_state::{BotThreadState, ModelCatalog, WhisperModel};
use sigbot::content::Thread;
use sigbot::quick_hash::{machine_order, ByteOrder, QuickHash};
use std::collections::hash_map::DefaultHasher;
use std::collections::BTreeMap;
use std::hash::{Hash, Hasher};

fn catalog() -> ModelCatalog {
    ModelCatalog { count: 5, default_model: WhisperModel { index: 1 } }
}

fn settings(enabled: bool, index: u32) -> BotThreadState {
    BotThreadState { enabled, whisper_model: WhisperModel { index } }
}

fn std_hash<T: Hash>(value: &T) -> u64 {
    let mut hasher = DefaultHasher::new();
    value.hash(&mut hasher);
    hasher.finish()
}

#[test]
fn a_contact_key_holds_tag_length_and_uuid() {
    let mut uuid = [0u8; 16];
    for i in 0..16 {
        uuid[i] = i as u8 + 100;
    }
    let mut expected = vec![0, 0, 0, 0, 16, 0, 0, 0, 0, 0, 0, 0];
    expected.extend_from_slice(&uuid);
    assert_eq!(Thread::Contact(uuid).key(), expected);
}

#[test]
fn a_group_key_holds_tag_and_master_key() {
    let master_key = [7u8; 32];
    let mut expected = vec![1, 0, 0, 0];
    expected.extend_from_slice(&master_key);
    assert_eq!(Thread::Group(master_key).key(), expected);
}

#[test]
fn keys_of_different_threads_differ() {
    let mut other = [0u8; 16];
    other[15] = 1;
    assert_ne!(Thread::Contact([0; 16]).key(), Thread::Contact(other).key());
    assert_ne!(Thread::Contact([0; 16]).key(), Thread::Group([0; 32]).key());
    assert_ne!(Thread::Group([0; 32]).key(), Thread::Group([1; 32]).key());
}

#[test]
fn settings_are_a_flag_and_a_number() {
    assert_eq!(settings(true, 3).to_bytes(), vec![1, 3, 0, 0, 0]);
    assert_eq!(settings(false, 0x01020304).to_bytes(), vec![0, 4, 3, 2, 1]);
}

#[test]
fn settings_survive_the_store() {
    let thread = Thread::Contact([9; 16]);
    for enabled in [false, true] {
        for index in 0..5 {
            let (key, value) = thread.put(settings(enabled, index));
            assert_eq!(key, thread.key());
            assert_eq!(thread.get(Some(value), &catalog()), settings(enabled, index));
        }
    }
}

#[test]
fn each_thread_has_its_own_settings() {
    let mut store: BTreeMap<Vec<u8>, Vec<u8>> = BTreeMap::new();
    let a = Thread::Contact([1; 16]);
    let b = Thread::Group([1; 32]);
    let puts = [(a, settings(true, 2)), (b, settings(false, 4)), (a, settings(true, 0))];
    for (thread, state) in puts {
        let (key, value) = thread.put(state);
        store.insert(key, value);
    }
    assert_eq!(a.get(store.get(&a.key()).cloned(), &catalog()), settings(true, 0));
    assert_eq!(b.get(store.get(&b.key()).cloned(), &catalog()), settings(false, 4));
}

#[test]
fn nothing_stored_means_disabled_with_the_default_model() {
    assert_eq!(Thread::Contact([0; 16]).get(None, &catalog()), settings(false, 1));
    assert_eq!(Thread::Group([0; 32]).get(None, &catalog()), settings(false, 1));
}

#[test]
fn unreadable_settings_are_replaced_by_the_initial_ones() {
    let thread = Thread::Group([0; 32]);
    for bytes in [vec![], vec![1], vec![1, 3, 0, 0], vec![2, 3, 0, 0, 0], vec![255, 0, 0, 0, 0]] {
        assert_eq!(BotThreadState::from_bytes(&bytes, &catalog()), None);
        assert_eq!(thread.get(Some(bytes), &catalog()), settings(false, 1));
    }
}

#[test]
fn a_model_that_is_not_offered_is_unreadable() {
    assert_eq!(BotThreadState::from_bytes(&[1, 4, 0, 0, 0], &catalog()), Some(settings(true, 4)));
    assert_eq!(BotThreadState::from_bytes(&[1, 5, 0, 0, 0], &catalog()), None);
    assert_eq!(BotThreadState::from_bytes(&[1, 0, 0, 0, 1], &catalog()), None);
}

#[test]
fn bytes_after_the_settings_are_not_looked_at() {
    assert_eq!(
        BotThreadState::from_bytes(&[1, 2, 0, 0, 0, 77, 78], &catalog()),
        Some(settings(true, 2))
    );
}

#[test]
fn the_hash_is_that_of_the_default_hasher() {
    assert_eq!(true.quick_hash(), std_hash(&true));
    assert_eq!(false.quick_hash(), std_hash(&false));
    assert_eq!(0x01020304u32.quick_hash(), std_hash(&0x01020304u32));
    assert_eq!(0x01020304usize.quick_hash(), std_hash(&0x01020304usize));
    assert_eq!(usize::MAX.quick_hash(), std_hash(&usize::MAX));
}

#[test]
fn settings_are_hashed_like_a_flag_and_a_choice() {
    #[derive(Hash)]
    enum Model {
        Tiny,
        Base,
        Small,
    }
    #[derive(Hash)]
    struct State {
        enabled: bool,
        model: Model,
    }
    for enabled in [false, true] {
        for (index, model) in [Model::Tiny, Model::Base, Model::Small].into_iter().enumerate() {
            assert_eq!(
                settings(enabled, index as u32).quick_hash(),
                std_hash(&State { enabled, model })
            );
        }
    }
}

#[test]
fn the_hash_depends_on_the_order_of_bytes() {
    let swapped = 0x01020304u32.swap_bytes();
    assert_eq!(
        0x01020304u32.hash_in(ByteOrder::LittleEndian),
        swapped.hash_in(ByteOrder::BigEndian)
    );
    assert_ne!(
        0x01020304u32.hash_in(ByteOrder::LittleEndian),
        0x01020304u32.hash_in(ByteOrder::BigEndian)
    );
    assert_eq!(7u32.quick_hash(), 7u32.hash_in(machine_order()));
    let first = 1u32.to_ne_bytes()[0];
    assert_eq!(machine_order() == ByteOrder::LittleEndian, first == 1);
}

#[test]
fn the_hash_tells_settings_apart() {
    let mut seen = Vec::new();
    for enabled in [false, true] {
        for index in 0..5 {
            let hash = settings(enabled, index).quick_hash();
            assert_eq!(hash, settings(enabled, index).quick_hash());
            assert!(!seen.contains(&hash));
            seen.push(hash);
        }
    }
}
