use legbone::character::{CharacterOutfit, Direction, FightMode, FightStance, Gender, Outfit};
use legbone::constants::MagicEffect;
use legbone::header::HeaderSend;
use legbone::position::Position;
use legbone::wire;
use legbone::Protocol;

#[test]
fn test_read_write_gender() {
    let gender_before = Gender::Female;

    let mut buf = Vec::new();
    wire::write_gender(&mut buf, gender_before, Protocol::Tibia300);

    let mut pos = 0;
    let gender_after = wire::read_gender(&buf, &mut pos, Protocol::Tibia300).unwrap();

    assert_eq!(gender_before, gender_after);
}

#[test]
fn test_read_write_outfit_colors() {
    let outfit_before = Outfit::new_with_unknown_byte(1, 2, 3, 4, 5);

    let mut buf = Vec::new();
    wire::write_outfit_colors(&mut buf, outfit_before);

    let mut pos = 0;
    let outfit_after = wire::read_outfit_colors(&buf, &mut pos).unwrap();

    assert_eq!(outfit_before, outfit_after);
}

#[test]
fn test_read_write_position() {
    let position_before = Position::new(1, 2, 3);
    let protocol = Protocol::Tibia650;

    let mut buf = Vec::new();
    wire::write_position(&mut buf, position_before, protocol);

    let mut pos = 0;
    let position_after = wire::read_position(&buf, &mut pos, protocol).unwrap();

    assert_eq!(position_before, position_after);
}

#[test]
fn test_read_write_u4() {
    let high_before = 1;
    let low_before = 2;

    let mut buf = Vec::new();
    wire::write_u4(&mut buf, high_before, low_before);

    let mut pos = 0;
    let (high_after, low_after) = wire::read_u4(&buf, &mut pos).unwrap();

    assert_eq!(high_before, high_after);
    assert_eq!(low_before, low_after);
}

#[test]
fn position_round_trips_under_oldest_version() {
    // The single-byte form loses nothing because z is always the ground
    // layer in that era.
    let before = Position::new(1, 2, 7);
    let mut buf = Vec::new();
    wire::write_position(&mut buf, before, Protocol::Tibia103);
    assert_eq!(buf, vec![1, 2]);
    let mut pos = 0;
    let after = wire::read_position(&buf, &mut pos, Protocol::Tibia103).unwrap();
    assert_eq!(before, after);
}

#[test]
fn gender_byte_five_is_lenient_under_every_version() {
    // An unrecognized gender byte is not a decode failure: it defaults
    // to male.
    for protocol in [
        Protocol::Tibia103,
        Protocol::Tibia300,
        Protocol::Tibia400,
        Protocol::Tibia501,
        Protocol::Tibia650,
        Protocol::Tibia694,
    ] {
        let buf = vec![5u8];
        let mut pos = 0;
        let gender = wire::read_gender(&buf, &mut pos, protocol).unwrap();
        assert_eq!(gender, Gender::Male);
    }
}

#[test]
fn gender_round_trips_under_every_supported_version() {
    for protocol in [
        Protocol::Tibia103,
        Protocol::Tibia300,
        Protocol::Tibia310,
        Protocol::Tibia400,
        Protocol::Tibia412,
        Protocol::Tibia501,
        Protocol::Tibia510,
        Protocol::Tibia620,
        Protocol::Tibia630,
        Protocol::Tibia640,
        Protocol::Tibia650,
        Protocol::Tibia661,
        Protocol::Tibia694,
    ] {
        for gender in [Gender::Male, Gender::Female] {
            let mut buf = Vec::new();
            wire::write_gender(&mut buf, gender, protocol);
            let mut pos = 0;
            assert_eq!(wire::read_gender(&buf, &mut pos, protocol).unwrap(), gender);
        }
    }
}

#[test]
fn header_opcode_width_follows_the_version_table() {
    // 1 byte for revision 400, 2 bytes for revision 650, 5 bytes (4-byte
    // pad) for the very oldest.
    let mut buf = Vec::new();
    wire::write_header(&mut buf, HeaderSend::WorldLight, Protocol::Tibia400);
    assert_eq!(buf, vec![0x28]);

    let mut buf = Vec::new();
    wire::write_header(&mut buf, HeaderSend::WorldLight, Protocol::Tibia650);
    assert_eq!(buf, vec![0x28, 0x00]);

    let mut buf = Vec::new();
    wire::write_header(&mut buf, HeaderSend::WorldLight, Protocol::Tibia103);
    assert_eq!(buf, vec![0x00, 0x00, 0x00, 0x00, 0x28]);
}

#[test]
fn position_width_follows_the_version_table() {
    let p = Position::new(0x1234, 0x5678, 3);
    let mut buf = Vec::new();
    wire::write_position(&mut buf, p, Protocol::Tibia650);
    assert_eq!(buf, vec![0x34, 0x12, 0x78, 0x56, 3]);

    let mut old = Vec::new();
    wire::write_position(&mut old, Position::new(9, 11, 7), Protocol::Tibia103);
    assert_eq!(old, vec![9, 11]);
}

#[test]
fn read_string_consumes_the_whole_field() {
    // "ab\0junk" in a 7-byte field: the name stops at the null but the
    // trailing bytes are still consumed.
    let buf = vec![b'a', b'b', 0, b'j', b'u', b'n', b'k', 0xaa];
    let mut pos = 0;
    let s = wire::read_string(&buf, &mut pos, 7).unwrap();
    assert_eq!(s, vec![b'a', b'b']);
    assert_eq!(pos, 7);
}

#[test]
fn read_string_fails_past_the_end() {
    let buf = vec![b'a', b'b'];
    let mut pos = 0;
    let r = wire::read_string(&buf, &mut pos, 7);
    assert_eq!(r, Err(wire::DecodeError::UnexpectedEnd));
    assert_eq!(pos, 0);
}

#[test]
fn fixed_length_field_truncates_or_pads() {
    let mut buf = Vec::new();
    wire::write_string_with_fixed_length(&mut buf, &vec![b'a', b'b', b'c'], 2);
    assert_eq!(buf, vec![b'a', b'b']);

    let mut buf = Vec::new();
    wire::write_string_with_fixed_length(&mut buf, &vec![b'a'], 4);
    assert_eq!(buf, vec![b'a', 0, 0, 0]);
}

#[test]
fn little_endian_integers_round_trip() {
    let mut buf = Vec::new();
    wire::write_u16_le(&mut buf, 0xbeef);
    wire::write_u32_le(&mut buf, 0xdeadbeef);
    assert_eq!(buf, vec![0xef, 0xbe, 0xef, 0xbe, 0xad, 0xde]);
    let mut pos = 0;
    assert_eq!(wire::read_u16_le(&buf, &mut pos).unwrap(), 0xbeef);
    assert_eq!(wire::read_u32_le(&buf, &mut pos).unwrap(), 0xdeadbeef);
    assert_eq!(pos, 6);
}

#[test]
fn unknown_protocol_number_is_rejected() {
    assert_eq!(legbone::Protocol::try_from_number(650), Some(Protocol::Tibia650));
    assert_eq!(legbone::Protocol::try_from_number(999), None);
    assert_eq!(Protocol::Tibia650.number(), 650);
}

#[test]
fn oversized_message_cannot_be_framed() {
    let mut q = legbone::queue::new_message_queue();
    legbone::queue::queue_push(&mut q, vec![0u8; 0xfffe]);
    let r = legbone::batch::flush_message_queue(&mut q, Protocol::Tibia650);
    assert_eq!(r, Err(wire::DecodeError::MessageTooLong));
}

#[test]
fn fight_mode_and_stance_bytes_are_validated() {
    assert_eq!(FightMode::try_from_number(1), Some(FightMode::Offensive));
    assert_eq!(FightMode::try_from_number(0), None);
    assert_eq!(FightStance::try_from_number(2), Some(FightStance::KeepDistance));
    assert_eq!(FightStance::try_from_number(9), None);
}

#[test]
fn coordinates_wrap_like_unsigned_arithmetic() {
    let p = Position::new(0, 0, 7);
    assert_eq!(p.step(Direction::North), Position::new(0, 0xffff, 7));
    assert_eq!(p.step(Direction::West), Position::new(0xffff, 0, 7));
    assert_eq!(Position::new(0xffff, 0xffff, 7).step(Direction::South), Position::new(0xffff, 0, 7));
}

#[test]
fn magic_effect_and_species_bytes_are_validated() {
    assert_eq!(MagicEffect::try_from_number(10), Some(MagicEffect::Teleport));
    assert_eq!(MagicEffect::try_from_number(18), None);
    assert_eq!(CharacterOutfit::try_from_number(1), Some(CharacterOutfit::Human));
    assert_eq!(CharacterOutfit::try_from_number(72), None);
    assert_eq!(CharacterOutfit::Human.number(), 1);
}
