use legbone::character::{Gender, Outfit};
use legbone::chat;
use legbone::config::MapConfig;
use legbone::map::{init_map, MapType, TileObject, WorldMap};
use legbone::player::{Player, Skills, Stats};
use legbone::position::{Position, PositionQualifier};
use legbone::queue::{new_message_queue, queue_push};
use legbone::session::{Connection, FrameDisposition};
use legbone::batch;
use legbone::world::{PlayerToWorldMessage, WorldToPlayerMessage};
use legbone::Protocol;

fn test_player() -> Player {
    Player {
        id: 42,
        name: b"Alice".to_vec(),
        position: Position::new(50, 50, 7),
        skills: Skills {
            sword: 10,
            club: 10,
            axe: 10,
            distance: 10,
            shield: 10,
            fist: 10,
            fishing: 10,
            gauche: 10,
            missile: 10,
        },
        stats: Stats {
            health_points: 150,
            capacity: 400,
            intelligence: 10,
            strength: 10,
            dexterity: 10,
            experience_points: 0,
            experience_level: 1,
            mana_points: 55,
            magic_level: 0,
            ammunition: 1,
        },
        outfit: Outfit::new(1, 2, 3, 4),
        gender: Gender::Male,
    }
}

fn checkerboard() -> WorldMap {
    let config = MapConfig { map_type: MapType::Checkerboard, file: None, tile: None };
    init_map(&config).unwrap()
}

/// Strips each sub-frame of its 2-byte prefix and concatenates.
fn strip_frames(mut bytes: &[u8]) -> Vec<u8> {
    let mut out = Vec::new();
    while bytes.len() >= 2 {
        let n = bytes[0] as usize + 256 * bytes[1] as usize;
        assert!(n >= 2 && n <= bytes.len());
        out.extend_from_slice(&bytes[2..n]);
        bytes = &bytes[n..];
    }
    assert!(bytes.is_empty());
    out
}

#[test]
fn batching_policies_carry_the_same_payload() {
    let b1 = vec![1u8, 2, 3];
    let b2 = vec![4u8];
    let b3 = vec![5u8, 6];
    let concatenated: Vec<u8> = [b1.clone(), b2.clone(), b3.clone()].concat();

    // individual framing (old clients)
    let mut q = new_message_queue();
    queue_push(&mut q, b1.clone());
    queue_push(&mut q, b2.clone());
    queue_push(&mut q, b3.clone());
    let out = batch::flush_message_queue(&mut q, Protocol::Tibia300).unwrap();
    assert_eq!(strip_frames(&out), concatenated);

    // single frame (new clients)
    let mut q = new_message_queue();
    queue_push(&mut q, b1.clone());
    queue_push(&mut q, b2.clone());
    queue_push(&mut q, b3.clone());
    let out = batch::flush_message_queue(&mut q, Protocol::Tibia650).unwrap();
    assert_eq!(out[0] as usize + 256 * out[1] as usize, concatenated.len() + 2);
    assert_eq!(&out[2..], concatenated.as_slice());
}

#[test]
fn an_empty_queue_writes_nothing() {
    let mut q = new_message_queue();
    let out = batch::flush_message_queue(&mut q, Protocol::Tibia650).unwrap();
    assert!(out.is_empty());
}

#[test]
fn logout_frame_ends_the_session_and_tells_the_world() {
    let map = checkerboard();
    let mut conn = Connection::new(Protocol::Tibia650, test_player(), false);
    let payload = vec![0xff, 0x00]; // logout opcode
    let outcome = conn.handle_frame(&map, &payload).unwrap();
    assert!(matches!(outcome.disposition, FrameDisposition::Logout));
    assert_eq!(outcome.world_messages, vec![PlayerToWorldMessage::UnloadPlayer(42)]);
}

#[test]
fn unknown_opcode_is_logged_and_skipped() {
    let map = checkerboard();
    let mut conn = Connection::new(Protocol::Tibia650, test_player(), false);
    let payload = vec![0xee, 0xee, 1, 2, 3];
    let outcome = conn.handle_frame(&map, &payload).unwrap();
    assert!(matches!(outcome.disposition, FrameDisposition::Continue));
    assert!(outcome.world_messages.is_empty());
    assert!(conn.flush_message_queue().unwrap().is_empty());
}

#[test]
fn walk_moves_the_player_and_notifies_the_world() {
    let map = checkerboard();
    let mut conn = Connection::new(Protocol::Tibia650, test_player(), false);
    let payload = vec![0x05, 0x00, 0x00]; // walk north
    let outcome = conn.handle_frame(&map, &payload).unwrap();
    assert!(matches!(outcome.disposition, FrameDisposition::Continue));
    assert_eq!(outcome.world_messages, vec![PlayerToWorldMessage::Walk(42)]);
    assert_eq!(conn.player.position, Position::new(50, 49, 7));
    assert!(!conn.flush_message_queue().unwrap().is_empty());
}

#[test]
fn invalid_walk_direction_is_a_typed_error() {
    let map = checkerboard();
    let mut conn = Connection::new(Protocol::Tibia650, test_player(), false);
    let payload = vec![0x05, 0x00, 0x09];
    let err = match conn.handle_frame(&map, &payload) {
        Err(e) => e,
        Ok(_) => panic!("expected a decode error"),
    };
    assert_eq!(err, legbone::wire::DecodeError::InvalidDirection(9));
    assert_eq!(conn.player.position, Position::new(50, 50, 7));
}

#[test]
fn world_light_is_applied_only_from_revision_300_on() {
    let mut conn = Connection::new(Protocol::Tibia650, test_player(), false);
    conn.handle_world_message(WorldToPlayerMessage::WorldLight(3));
    let out = conn.flush_message_queue().unwrap();
    // one frame: length prefix + 2-byte opcode + level
    assert_eq!(out, vec![5, 0, 0x28, 0x00, 3]);

    let mut conn = Connection::new(Protocol::Tibia103, test_player(), false);
    conn.handle_world_message(WorldToPlayerMessage::WorldLight(3));
    assert!(conn.flush_message_queue().unwrap().is_empty());
}

#[test]
fn plain_chat_is_echoed_with_sender_and_position() {
    let map = checkerboard();
    let mut conn = Connection::new(Protocol::Tibia650, test_player(), false);
    // chat opcode, text length 2, "hi"
    let payload = vec![0x09, 0x00, 2, 0, b'h', b'i'];
    let outcome = conn.handle_frame(&map, &payload).unwrap();
    assert!(matches!(outcome.disposition, FrameDisposition::Continue));
    let out = conn.flush_message_queue().unwrap();
    let mut expected = Vec::new();
    expected.extend_from_slice(&[0x65, 0x00]); // chat header
    expected.extend_from_slice(&[50, 0, 50, 0, 7]); // position
    expected.push(0x53); // normal
    expected.extend_from_slice(b"Alice");
    expected.push(0x09);
    expected.extend_from_slice(b"hi");
    expected.push(0);
    let mut framed = vec![(expected.len() + 2) as u8, 0];
    framed.extend_from_slice(&expected);
    assert_eq!(out, framed);
}

#[test]
fn unknown_chat_qualifier_degrades_to_a_puff() {
    let map = checkerboard();
    let mut conn = Connection::new(Protocol::Tibia650, test_player(), false);
    let payload = vec![0x09, 0x00, 4, 0, b'#', b'z', b' ', b'x'];
    conn.handle_frame(&map, &payload).unwrap();
    let out = conn.flush_message_queue().unwrap();
    // magic effect: header + position + effect byte (puff = 2)
    assert_eq!(out, vec![10, 0, 0x1a, 0x00, 50, 0, 50, 0, 7, 2]);
}

#[test]
fn debug_panic_command_is_handed_up() {
    let map = checkerboard();
    let mut conn = Connection::new(Protocol::Tibia650, test_player(), true);
    let mut text = b"\\d panic boom".to_vec();
    let mut payload = vec![0x09, 0x00, text.len() as u8, 0];
    payload.append(&mut text);
    let outcome = conn.handle_frame(&map, &payload).unwrap();
    match outcome.disposition {
        FrameDisposition::PanicRequested(msg) => assert_eq!(msg, b"boom".to_vec()),
        _ => panic!("expected a panic request"),
    }
}

#[test]
fn debug_commands_are_ignored_when_disabled() {
    let map = checkerboard();
    let mut conn = Connection::new(Protocol::Tibia650, test_player(), false);
    let mut text = b"\\d panic boom".to_vec();
    let mut payload = vec![0x09, 0x00, text.len() as u8, 0];
    payload.append(&mut text);
    let outcome = conn.handle_frame(&map, &payload).unwrap();
    // treated as plain chat, not a command
    assert!(matches!(outcome.disposition, FrameDisposition::Continue));
    assert!(!conn.flush_message_queue().unwrap().is_empty());
}

#[test]
fn debug_world_light_command_queues_the_message() {
    let map = checkerboard();
    let mut conn = Connection::new(Protocol::Tibia650, test_player(), true);
    let mut text = b"\\d wlight 4".to_vec();
    let mut payload = vec![0x09, 0x00, text.len() as u8, 0];
    payload.append(&mut text);
    conn.handle_frame(&map, &payload).unwrap();
    let out = conn.flush_message_queue().unwrap();
    assert_eq!(out, vec![5, 0, 0x28, 0x00, 4]);
}

#[test]
fn malformed_debug_command_degrades_to_a_puff() {
    let map = checkerboard();
    let mut conn = Connection::new(Protocol::Tibia650, test_player(), true);
    let mut text = b"\\d wlight zz".to_vec();
    let mut payload = vec![0x09, 0x00, text.len() as u8, 0];
    payload.append(&mut text);
    conn.handle_frame(&map, &payload).unwrap();
    let out = conn.flush_message_queue().unwrap();
    assert_eq!(out, vec![10, 0, 0x1a, 0x00, 50, 0, 50, 0, 7, 2]);
}

#[test]
fn set_data_changes_the_outfit_and_echoes_it() {
    let map = checkerboard();
    let mut conn = Connection::new(Protocol::Tibia650, test_player(), false);
    // set-data opcode, then 3 outfit bytes (revision above 501 reads only
    // the outfit)
    let payload = vec![0x21, 0x00, 0x34, 0x12, 0x05];
    conn.handle_frame(&map, &payload).unwrap();
    assert_eq!(conn.player.outfit, Outfit::new_with_unknown_byte(1, 2, 3, 4, 5));
    assert!(!conn.flush_message_queue().unwrap().is_empty());
}

#[test]
fn qualified_positions_are_reinterpreted() {
    assert_eq!(
        Position::new(5, 6, 7).get_qualifier().unwrap(),
        PositionQualifier::Plain
    );
    assert_eq!(
        Position::new(0xffff, 5, 0).get_qualifier().unwrap(),
        PositionQualifier::Inventory(legbone::player::InventorySlot::RightHand)
    );
    assert_eq!(
        Position::new(0xffff, 0x42, 3).get_qualifier().unwrap(),
        PositionQualifier::Container(2, 3)
    );
    assert!(Position::new(0xffff, 9, 0).get_qualifier().is_err());
}

#[test]
fn map_reads_water_outside_and_tiles_inside() {
    let map = checkerboard();
    // inside: checkerboard parity decides the tile id
    let inside = map.get_tile_objects(Position::new(10, 10, 7)).unwrap();
    assert_eq!(inside, vec![TileObject::Other(0x010c)]);
    let inside = map.get_tile_objects(Position::new(10, 11, 7)).unwrap();
    assert_eq!(inside, vec![TileObject::Other(0x0113)]);
    // outside at the ground layer: open water
    let outside = map.get_tile_objects(Position::new(200, 10, 7)).unwrap();
    assert_eq!(outside, vec![TileObject::Other(0x000e)]);
    // any other layer: nothing
    assert!(map.get_tile_objects(Position::new(10, 10, 3)).is_none());
    assert!(map.get_tile_objects(Position::new(200, 10, 3)).is_none());
}

#[test]
fn fixed_tile_map_is_uniform() {
    let config = MapConfig { map_type: MapType::FixedTile, file: None, tile: Some(0x01aa) };
    let map = init_map(&config).unwrap();
    for (x, y) in [(0u16, 0u16), (42, 17), (99, 99)] {
        assert_eq!(
            map.get_tile_objects(Position::new(x, y, 7)).unwrap(),
            vec![TileObject::Other(0x01aa)]
        );
    }
}

#[test]
fn fixed_tile_map_without_a_tile_is_rejected() {
    let config = MapConfig { map_type: MapType::FixedTile, file: None, tile: None };
    let err = match init_map(&config) {
        Err(e) => e,
        Ok(_) => panic!("expected a map error"),
    };
    assert_eq!(err, legbone::map::MapError::MissingTile);
}

#[test]
fn chat_translation_fixes_the_charset() {
    let translated = chat::translate(&vec![0x5b, 0x7b, b'a']);
    assert_eq!(translated, vec![0xc4, 0xe4, b'a']);
    let upper = chat::translate_upper(&vec![0x7b, 0x7c, 0x7d]);
    assert_eq!(upper, vec![0xc4, 0xd6, 0xdc]);
}

#[test]
fn yelled_chat_is_uppercased() {
    let conn = Connection::new(Protocol::Tibia650, test_player(), false);
    let msg = conn.prepare_chat(chat::ChatType::Yell, &b"hey".to_vec(), None, None);
    // header + zero position + type + "HEY" + null
    assert_eq!(
        msg,
        vec![0x65, 0x00, 0, 0, 0, 0, 0, 0x59, b'H', b'E', b'Y', 0]
    );
}

#[test]
fn login_burst_starts_with_the_login_acknowledgement() {
    let map = checkerboard();
    let mut conn = Connection::new(Protocol::Tibia300, test_player(), false);
    conn.queue_login_info(&map);
    let out = conn.flush_message_queue().unwrap();
    // individual framing under revision 300: the first frame is the login
    // message (1-byte header + 4-byte player id behind its length prefix).
    assert_eq!(&out[..7], &[7, 0, 0x01, 42, 0, 0, 0]);
}
