use streamdeck::model::{PRODUCT_ID_MINI, PRODUCT_ID_PEDAL, PRODUCT_ID_PLUS, VENDOR_ID};
use streamdeck::{list_devices, select_single_device, Grid, Kind, Model, StreamDeckError};

#[test]
fn plus_resolves_with_its_capabilities() {
    let model = Model::from_product_id(PRODUCT_ID_PLUS).unwrap();
    assert_eq!(model.kind(), Kind::Plus);
    assert_eq!(model.button_count(), 8);
    assert_eq!(model.encoder_count(), 4);
    assert_eq!(model.lcd_strip_size(), Some((800, 100)));
    assert_eq!(model.vendor_id(), VENDOR_ID);
    assert_eq!(model.name(), "Plus");
}

#[test]
fn pedal_has_pedals_and_no_keys() {
    let model = Model::from_product_id(PRODUCT_ID_PEDAL).unwrap();
    assert_eq!(model.button_grid(), None);
    assert_eq!(model.button_count(), 0);
    let pedals = model.pedal_grid().unwrap();
    assert_eq!((pedals.height(), pedals.width()), (1, 3));
}

#[test]
fn unknown_product_is_invalid_product() {
    assert_eq!(
        Model::from_product_id(0xFFFF),
        Err(StreamDeckError::InvalidProductID(0xFFFF))
    );
    assert_eq!(
        Model::from_device_info(VENDOR_ID, 0x0001),
        Err(StreamDeckError::InvalidProductID(0x0001))
    );
}

#[test]
fn foreign_vendor_is_invalid_vendor() {
    assert_eq!(
        Model::from_device_info(0x1234, PRODUCT_ID_PLUS),
        Err(StreamDeckError::InvalidVendorID(0x1234))
    );
}

#[test]
fn every_kind_round_trips_through_its_product_id() {
    let kinds = [
        Kind::Original,
        Kind::OriginalV2,
        Kind::Mini,
        Kind::XL,
        Kind::XLV2,
        Kind::MK2,
        Kind::MiniMK2,
        Kind::Pedal,
        Kind::Plus,
    ];
    for kind in kinds {
        let model = Model::from(kind);
        assert_eq!(Model::from_product_id(model.product_id()), Ok(model));
    }
}

#[test]
fn xl_has_thirty_two_keys() {
    assert_eq!(Model::of_kind(Kind::XL).button_count(), 32);
    assert_eq!(Kind::XLV2.name(), "XL v2");
}

#[test]
fn grid_counts_and_keeps_any_size() {
    let g = Grid::new(3, 5).unwrap();
    assert_eq!(g.count(), 15);
    let wide = Grid::new(usize::MAX, 2).unwrap();
    assert_eq!((wide.height(), wide.width()), (usize::MAX, 2));
}

#[test]
fn should_list_a_device() {
    let devices = list_devices(&vec![(0x046d, 0xc077), (VENDOR_ID, PRODUCT_ID_PLUS)]);
    assert_eq!(devices.len(), 1);
    assert_eq!(devices[0].0, 1);
    assert_eq!(devices[0].1.kind(), Kind::Plus);
}

#[test]
fn selection_needs_exactly_one_device() {
    assert_eq!(
        select_single_device(&vec![(0x046d, 0xc077)]),
        Err(StreamDeckError::NoDeviceFound)
    );
    assert_eq!(
        select_single_device(&vec![(VENDOR_ID, PRODUCT_ID_PLUS), (VENDOR_ID, PRODUCT_ID_MINI)]),
        Err(StreamDeckError::MoreThanOneDevice(2))
    );
    let (index, model) = select_single_device(&vec![(1, 2), (VENDOR_ID, PRODUCT_ID_MINI)]).unwrap();
    assert_eq!(index, 1);
    assert_eq!(model.kind(), Kind::Mini);
}
