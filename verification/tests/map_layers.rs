use river::map::MapLayer;

#[test]
fn every_layer_is_offered_once_in_order() {
    assert_eq!(
        MapLayer::all(),
        [
            MapLayer::Gsi,
            MapLayer::RedRelief,
            MapLayer::Osm,
            MapLayer::Hillshade,
            MapLayer::Blank,
            MapLayer::SeamlessPhoto,
        ]
    );
}

#[test]
fn layer_labels_are_the_ones_shown() {
    let labels: Vec<&str> = MapLayer::all().iter().map(|l| l.label()).collect();
    for label in ["地理院タイル", "赤色立体図", "OpenStreetMap", "陰影起伏図", "白地図", "航空写真"] {
        assert!(labels.contains(&label), "missing layer option {label:?}: {labels:?}");
    }
}

#[test]
fn selector_values_choose_their_layer() {
    for layer in MapLayer::all() {
        assert_eq!(MapLayer::from_value(layer.value()), layer);
    }
    assert_eq!(MapLayer::from_value("red-relief"), MapLayer::RedRelief);
    assert_eq!(MapLayer::from_value("seamless-photo"), MapLayer::SeamlessPhoto);
}

#[test]
fn unknown_selector_value_gives_the_standard_map() {
    assert_eq!(MapLayer::from_value("satellite"), MapLayer::Gsi);
    assert_eq!(MapLayer::from_value(""), MapLayer::Gsi);
    assert_eq!(MapLayer::from_value("OSM"), MapLayer::Gsi);
}

#[test]
fn red_relief_tiles_come_from_the_sekishoku_set() {
    assert!(MapLayer::RedRelief.tile_url().contains("/xyz/sekishoku/"));
    assert_eq!(MapLayer::Osm.tile_url(), "https://tile.openstreetmap.org/{z}/{x}/{y}.png");
    assert_eq!(MapLayer::SeamlessPhoto.value(), "seamless-photo");
}

#[test]
fn only_openstreetmap_credits_openstreetmap() {
    assert!(MapLayer::Osm.attribution().contains("OpenStreetMap"));
    for layer in [MapLayer::Gsi, MapLayer::RedRelief, MapLayer::Hillshade, MapLayer::Blank, MapLayer::SeamlessPhoto] {
        assert!(layer.attribution().contains("地理院タイル"));
    }
}
