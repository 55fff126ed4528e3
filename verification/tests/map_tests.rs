use evb::channel_data::ChannelDataField;
use evb::channel_map::{Board, ChannelMap, ChannelMapError, ChannelType};
use evb::hit::channel_uuid;
use evb::kinematics::{residual_nucleus, KinematicsError, Nucleus};

#[test]
fn lookup_resolves_board_and_channel() {
    let map = ChannelMap::new(&vec![Board::sps(2)]).unwrap();
    let anode = map.get_channel_data(channel_uuid(2, 13)).unwrap();
    assert_eq!(anode.channel_type, ChannelType::AnodeFront);
    let scint = map.get_channel_data(channel_uuid(2, 1)).unwrap();
    assert_eq!(scint.channel_type, ChannelType::ScintLeft);
    assert!(map.get_channel_data(channel_uuid(3, 1)).is_none());
}

#[test]
fn contains_channel_type_reflects_the_boards() {
    let map = ChannelMap::new(&vec![Board::sps(0)]).unwrap();
    assert!(map.contains_channel_type(ChannelType::DelayFrontLeft));
    assert!(map.contains_channel_type(ChannelType::AnodeBack));
    assert!(!map.contains_channel_type(ChannelType::Cebra0));
    assert!(!map.contains_channel_type(ChannelType::RF));
}

#[test]
fn duplicate_board_ids_are_rejected() {
    let r = ChannelMap::new(&vec![Board::sps(1), Board::cebra(1)]);
    assert_eq!(r.unwrap_err(), ChannelMapError::DuplicateBoard(1));
}

#[test]
fn oversized_board_id_is_rejected() {
    let r = ChannelMap::new(&vec![Board::sps(0x10000)]);
    assert_eq!(r.unwrap_err(), ChannelMapError::BoardIdOutOfRange(0x10000));
}

#[test]
fn distinct_boards_coexist() {
    let map = ChannelMap::new(&vec![Board::sps(0), Board::cebra(1), Board::catrina(2)]).unwrap();
    assert!(map.contains_channel_type(ChannelType::Cebra8));
    assert!(map.contains_channel_type(ChannelType::CATRINA15));
    let cebra0 = map.get_channel_data(channel_uuid(1, 0)).unwrap();
    assert_eq!(cebra0.channel_type, ChannelType::Cebra0);
}

#[test]
fn strip_boards_map_their_sixteen_channels() {
    let map = ChannelMap::new(&vec![Board::left_strip(0), Board::right_strip(1)]).unwrap();
    for c in 0..16u16 {
        assert!(map.get_channel_data(channel_uuid(0, c)).is_some());
        assert!(map.get_channel_data(channel_uuid(1, c)).is_some());
    }
    assert!(map.contains_channel_type(ChannelType::LeftStrip15));
    assert!(map.contains_channel_type(ChannelType::RightStrip0));
}

#[test]
fn filtered_schema_requires_all_four_delay_lines() {
    // a board with only the two front delay channels mapped
    let mut channels = [ChannelType::Unmapped; 16];
    channels[8] = ChannelType::DelayFrontLeft;
    channels[9] = ChannelType::DelayFrontRight;
    let map = ChannelMap::new(&vec![Board { id: 0, channels }]).unwrap();
    let fields = ChannelDataField::get_filtered_field_vec(&map);
    assert!(!fields.contains(&ChannelDataField::X1));
    assert!(!fields.contains(&ChannelDataField::Theta));
    assert!(fields.contains(&ChannelDataField::DelayFrontLeftTime));
    assert_eq!(fields.len(), 6);
}

#[test]
fn rel_time_columns_need_their_reference_channels() {
    // CeBrA alone: no ScintLeft, so no relative-time columns
    let map = ChannelMap::new(&vec![Board::cebra(0)]).unwrap();
    let fields = ChannelDataField::get_filtered_field_vec(&map);
    assert!(fields.contains(&ChannelDataField::Cebra0Energy));
    assert!(!fields.contains(&ChannelDataField::Cebra0RelTime));
    // with the SPS board added, ScintLeft exists and the columns appear
    let both = ChannelMap::new(&vec![Board::cebra(0), Board::sps(1)]).unwrap();
    let fields = ChannelDataField::get_filtered_field_vec(&both);
    assert!(fields.contains(&ChannelDataField::Cebra0RelTime));
}

#[test]
fn default_board_is_fully_unmapped() {
    let b = Board::default();
    assert_eq!(b.id, 0);
    for c in b.channels.iter() {
        assert_eq!(*c, ChannelType::Unmapped);
    }
    assert_eq!(ChannelType::default(), ChannelType::Unmapped);
}

#[test]
fn residual_nucleus_by_conservation() {
    // 12C(d, p)13C
    let beam = Nucleus { z: 1, a: 2 };
    let target = Nucleus { z: 6, a: 12 };
    let ejectile = Nucleus { z: 1, a: 1 };
    assert_eq!(
        residual_nucleus(beam, target, ejectile),
        Ok(Nucleus { z: 6, a: 13 })
    );
}

#[test]
fn impossible_ejectile_is_forbidden() {
    let beam = Nucleus { z: 1, a: 2 };
    let target = Nucleus { z: 6, a: 12 };
    let ejectile = Nucleus { z: 8, a: 16 };
    assert_eq!(
        residual_nucleus(beam, target, ejectile),
        Err(KinematicsError::ForbiddenReaction)
    );
}
