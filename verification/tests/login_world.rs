use legbone::login::{self, LoginFlow};
use legbone::position::Position;
use legbone::wire::DecodeError;
use legbone::world;
use legbone::Protocol;

#[test]
fn first_frame_length_selects_the_flow() {
    assert_eq!(login::classify_login(67), LoginFlow::ExistingLogin);
    assert_eq!(login::classify_login(221), LoginFlow::NewCharacter);
    assert_eq!(login::classify_login(223), LoginFlow::NewCharacter);
    assert_eq!(login::classify_login(723), LoginFlow::NewCharacter);
    assert_eq!(login::classify_login(0), LoginFlow::AccountLogin);
    assert_eq!(login::classify_login(66), LoginFlow::AccountLogin);
    assert_eq!(login::classify_login(68), LoginFlow::AccountLogin);
    assert_eq!(login::classify_login(222), LoginFlow::AccountLogin);
    assert_eq!(login::classify_login(65535), LoginFlow::AccountLogin);
}

fn existing_login_payload(protocol: u16, name: &[u8], password: &[u8]) -> Vec<u8> {
    let mut p = vec![0, 0, 1, 1, 0];
    p.push((protocol % 256) as u8);
    p.push((protocol / 256) as u8);
    let mut field = name.to_vec();
    field.resize(30, 0);
    p.extend_from_slice(&field);
    let mut field = password.to_vec();
    field.resize(30, 0);
    p.extend_from_slice(&field);
    p
}

#[test]
fn existing_login_parses_name_password_and_version() {
    let payload = existing_login_payload(650, b"Alice", b"secret");
    let (name, password, protocol) = login::player_login(&payload).unwrap();
    assert_eq!(name, b"Alice".to_vec());
    assert_eq!(password, b"secret".to_vec());
    assert_eq!(protocol, Protocol::Tibia650);
}

#[test]
fn existing_login_rejects_unknown_version_and_short_payload() {
    let payload = existing_login_payload(999, b"Alice", b"pw");
    assert_eq!(login::player_login(&payload), Err(DecodeError::UnknownProtocol(999)));

    let short = vec![0u8; 10];
    assert_eq!(login::player_login(&short), Err(DecodeError::UnexpectedEnd));
}

#[test]
fn new_character_takes_chosen_gender_and_outfit() {
    // preamble(5) version(2) name(30) password(30) gender(1) skip(2)
    // outfit(3) realname(50) location(50) email(50), under revision 300.
    let mut payload = vec![0, 0, 0, 1, 0];
    payload.extend_from_slice(&[0x2c, 0x01]); // 300
    let mut name = b"Bob".to_vec();
    name.resize(30, 0);
    payload.extend_from_slice(&name);
    payload.extend_from_slice(&[0u8; 30]); // password
    payload.push(0); // female before revision 501
    payload.extend_from_slice(&[1, 1]); // skipped
    payload.extend_from_slice(&[0x34, 0x12, 0x05]); // legs 3 shoes 4, head 1 body 2, opaque 5
    payload.extend_from_slice(&[0u8; 50]); // real name
    payload.extend_from_slice(&[0u8; 50]); // location
    payload.extend_from_slice(&[0u8; 50]); // email
    let respawn = Position::new(50, 50, 7);
    let (player, protocol) = login::create_new_player(&payload, 7, respawn).unwrap();
    assert_eq!(protocol, Protocol::Tibia300);
    assert_eq!(player.id, 7);
    assert_eq!(player.name, b"Bob".to_vec());
    assert_eq!(player.gender, legbone::character::Gender::Female);
    assert_eq!(player.outfit, legbone::character::Outfit::new_with_unknown_byte(1, 2, 3, 4, 5));
    assert_eq!(player.position, respawn);
}

#[test]
fn account_login_needs_a_recent_version() {
    // preamble(3) version(2): a pre-650 version in account-login shape is
    // a hard failure.
    let mut payload = vec![1, 1, 0];
    payload.extend_from_slice(&[0x90, 0x01]); // 400
    payload.extend_from_slice(&[0u8; 6]);
    assert_eq!(
        login::account_login(&payload, 12).unwrap_err(),
        DecodeError::UnrecognizedLogin(12)
    );
}

#[test]
fn account_login_parses_account_and_password() {
    let mut payload = vec![1, 1, 0];
    payload.extend_from_slice(&[0x8a, 0x02]); // 650
    payload.extend_from_slice(&[0x39, 0x30, 0, 0]); // account 12345
    payload.extend_from_slice(&[4, 0]); // password length
    payload.extend_from_slice(b"pw\x00x"); // null inside the field
    let parsed = login::account_login(&payload, 13).unwrap();
    assert_eq!(parsed.protocol, Protocol::Tibia650);
    assert_eq!(parsed.account_number, 12345);
    assert_eq!(parsed.password, b"pw".to_vec());
}

#[test]
fn character_list_names_the_server_address() {
    let reply = login::prepare_character_list((127, 0, 0, 1), 7171);
    let mut expected = vec![0x64, 1];
    expected.extend_from_slice(&[6, 0]);
    expected.extend_from_slice(b"Player");
    expected.extend_from_slice(&[7, 0]);
    expected.extend_from_slice(b"legbone");
    expected.extend_from_slice(&[127, 0, 0, 1]);
    expected.extend_from_slice(&[0x03, 0x1c]); // 7171 little-endian
    assert_eq!(reply, expected);
}

#[test]
fn light_level_is_total_and_shaped_like_a_day() {
    for hour in 0..24u8 {
        let level = world::hour_to_light_level(hour);
        assert!((1..=6).contains(&level));
    }
    // non-decreasing to the plateau, non-increasing after it
    for hour in 0..9u8 {
        assert!(world::hour_to_light_level(hour) <= world::hour_to_light_level(hour + 1));
    }
    for hour in 9..23u8 {
        assert!(world::hour_to_light_level(hour) >= world::hour_to_light_level(hour + 1));
    }
    assert_eq!(world::hour_to_light_level(0), 1);
    assert_eq!(world::hour_to_light_level(12), 6);
    assert_eq!(world::hour_to_light_level(20), 3);
}

#[test]
fn hour_wraps_at_end_of_day() {
    assert_eq!(world::advance_hour(0), 1);
    assert_eq!(world::advance_hour(22), 23);
    assert_eq!(world::advance_hour(23), 0);
}

#[test]
fn registry_reconnect_keeps_one_channel_and_unload_removes_it() {
    let mut registry = world::SessionRegistry::new();
    registry.load_player(7, 100);
    registry.load_player(7, 200); // reconnect: last write wins
    registry.load_player(9, 300);

    let targets = registry.broadcast_targets();
    let for_seven: Vec<_> = targets.iter().filter(|t| t.0 == 7).collect();
    assert_eq!(for_seven.len(), 1);
    assert_eq!(for_seven[0].1, 200);

    registry.unload_player(7);
    let targets = registry.broadcast_targets();
    assert!(targets.iter().all(|t| t.0 != 7));
    assert!(targets.iter().any(|t| t.0 == 9 && t.1 == 300));
}

#[test]
fn clock_tick_broadcasts_only_when_enabled() {
    let mut registry = world::SessionRegistry::new();
    registry.load_player(1, 11);
    let on = world::WorldOptions { day_night_cycle_enabled: true };
    let off = world::WorldOptions { day_night_cycle_enabled: false };

    let (hour, light, targets) = world::clock_tick(8, on, &registry);
    assert_eq!(hour, 9);
    assert_eq!(light, 6);
    assert_eq!(targets, vec![(1, 11)]);

    let (_, _, targets) = world::clock_tick(8, off, &registry);
    assert!(targets.is_empty());
}

#[test]
fn registry_messages_apply_like_the_operations() {
    let mut registry = world::SessionRegistry::new();
    registry.apply_message(world::PlayerToWorldMessage::LoadPlayer(5, 50));
    registry.apply_message(world::PlayerToWorldMessage::Walk(5));
    let targets = registry.broadcast_targets();
    assert_eq!(targets, vec![(5, 50)]);
    registry.apply_message(world::PlayerToWorldMessage::UnloadPlayer(5));
    assert!(registry.broadcast_targets().is_empty());
}
