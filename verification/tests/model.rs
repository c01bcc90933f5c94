use std::collections::hash_map::DefaultHasher;
use std::hash::{Hash, Hasher};
use std::rc::Rc;

use platform_chat::chat::{Chat, Message};
use platform_chat::datetime::DateTime;
use platform_chat::platform::{Platform, PlatformId};
use platform_chat::user::User;

fn hash_of(p: &Platform) -> u64 {
    let mut h = DefaultHasher::new();
    p.hash(&mut h);
    h.finish()
}

#[test]
fn set_then_get_returns_set_id() {
    let mut u = User::new(1, String::from("alice"));
    let id = PlatformId::new(42, Platform::VK);
    u.set_platform_id(&id);
    let got = u.get_platform_id(Platform::VK).unwrap();
    assert_eq!(got.value, 42);
    assert_eq!(got.platform, Platform::VK);
    assert_eq!(got, id);
}

#[test]
fn set_does_not_affect_other_platform() {
    let mut u = User::new(1, String::from("alice"));
    u.set_platform_id(&PlatformId::new(5, Platform::TELEGRAM));
    assert_eq!(u.get_platform_id(Platform::VK), None);
    u.set_platform_id(&PlatformId::new(42, Platform::VK));
    let tg = u.get_platform_id(Platform::TELEGRAM).unwrap();
    assert_eq!(tg.value, 5);
    assert_eq!(tg.platform, Platform::TELEGRAM);
}

#[test]
fn overwrite_same_platform_last_write_wins() {
    let mut u = User::new(1, String::from("alice"));
    let id1 = PlatformId::new(42, Platform::VK);
    let id2 = PlatformId::new(7, Platform::VK);
    u.set_platform_id(&id1);
    u.set_platform_id(&id2);
    let got = u.get_platform_id(Platform::VK).unwrap();
    assert_eq!(got, id2);
    assert_ne!(got, id1);
}

#[test]
fn set_same_id_twice_is_idempotent() {
    let mut u = User::new(1, String::from("alice"));
    let id = PlatformId::new(42, Platform::VK);
    u.set_platform_id(&id);
    u.set_platform_id(&id);
    assert_eq!(u.get_platform_id(Platform::VK), Some(id));
}

#[test]
fn platforms_are_distinct() {
    assert_ne!(Platform::VK, Platform::TELEGRAM);
    assert_ne!(Platform::VK.name(), Platform::TELEGRAM.name());
    assert_ne!(hash_of(&Platform::VK), hash_of(&Platform::TELEGRAM));
    assert_eq!(Platform::VK.name(), "VK");
    assert_eq!(Platform::TELEGRAM.name(), "Telegram");
}

#[test]
fn fresh_user_has_no_platform_ids() {
    let u = User::new(9, String::from("bob"));
    assert_eq!(u.get_platform_id(Platform::VK), None);
    assert_eq!(u.get_platform_id(Platform::TELEGRAM), None);
}

#[test]
fn user_keeps_id_and_username_across_sets() {
    let mut u = User::new(77, String::from("carol"));
    assert_eq!(u.id(), 77);
    u.set_platform_id(&PlatformId::new(3, Platform::VK));
    assert_eq!(u.id(), 77);
    assert_eq!(u.username, "carol");
    u.username = String::from("carola");
    assert_eq!(u.username, "carola");
    assert_eq!(u.get_platform_id(Platform::VK), Some(PlatformId::new(3, Platform::VK)));
}

#[test]
fn end_to_end_scenario() {
    let mut u = User::new(1, String::from("alice"));
    u.set_platform_id(&PlatformId::new(42, Platform::VK));
    u.set_platform_id(&PlatformId::new(7, Platform::TELEGRAM));
    let vk = u.get_platform_id(Platform::VK).unwrap();
    assert_eq!(vk.value, 42);
    assert_eq!(vk.platform, Platform::VK);
    let tg = u.get_platform_id(Platform::TELEGRAM).unwrap();
    assert_eq!(tg.value, 7);
    assert_eq!(tg.platform, Platform::TELEGRAM);

    let user = Rc::new(u);
    let chat = Rc::new(Chat::new(
        PlatformId::new(100, Platform::TELEGRAM),
        vec![Rc::clone(&user)],
    ));
    let dt = DateTime::new(2024, 5, 17, 12, 30, 0).unwrap();
    let m = Message::new(
        PlatformId::new(1000, Platform::TELEGRAM),
        Rc::clone(&chat),
        Rc::clone(&user),
        String::from("hi"),
        dt,
    );
    assert_eq!(m.chat.id().platform, Platform::TELEGRAM);
    assert_eq!(m.sender.username, "alice");
    assert_eq!(m.id().value, 1000);
    assert_eq!(m.text, "hi");
    assert_eq!(m.datetime, dt);
    assert_eq!(m.chat.participants.len(), 1);
    assert_eq!(m.chat.participants[0].username, "alice");
}

#[test]
fn chat_keeps_participants_in_join_order() {
    let a = Rc::new(User::new(1, String::from("alice")));
    let b = Rc::new(User::new(2, String::from("bob")));
    let mut c = Chat::new(
        PlatformId::new(5, Platform::VK),
        vec![Rc::clone(&a)],
    );
    c.participants.push(Rc::clone(&b));
    assert_eq!(c.id().value, 5);
    assert_eq!(c.id().platform, Platform::VK);
    assert_eq!(c.participants.len(), 2);
    assert_eq!(c.participants[0].username, "alice");
    assert_eq!(c.participants[1].username, "bob");
}

#[test]
fn message_text_is_mutable() {
    let u = Rc::new(User::new(1, String::from("alice")));
    let chat = Rc::new(Chat::new(
        PlatformId::new(100, Platform::TELEGRAM),
        vec![Rc::clone(&u)],
    ));
    let dt = DateTime::new(1999, 12, 31, 23, 59, 59).unwrap();
    let mut m = Message::new(
        PlatformId::new(1, Platform::TELEGRAM),
        chat,
        u,
        String::from("hi"),
        dt,
    );
    m.text = String::from("hello");
    assert_eq!(m.text, "hello");
}
