//! The background maps a user can choose between.

use vstd::prelude::*;
use crate::api::get_river;
use crate::river::{River, RiverTrack, RiverWaypoint};
use crate::text::str_eq;

verus! {

/// A background map.
#[derive(Clone, Copy, Debug, PartialEq, Eq, Structural)]
pub enum MapLayer {
    Gsi,
    RedRelief,
    Osm,
    Hillshade,
    Blank,
    SeamlessPhoto,
}

/// The value that stands for a layer in the layer selector.
pub open spec fn layer_value(layer: MapLayer) -> Seq<char> {
    match layer {
        MapLayer::Gsi => "gsi"@,
        MapLayer::RedRelief => "red-relief"@,
        MapLayer::Osm => "osm"@,
        MapLayer::Hillshade => "hillshade"@,
        MapLayer::Blank => "blank"@,
        MapLayer::SeamlessPhoto => "seamless-photo"@,
    }
}

/// The layer a selector value stands for; any value that stands for no
/// other layer gives the standard map.
pub open spec fn layer_of_value(value: Seq<char>) -> MapLayer {
    if value == "red-relief"@ {
        MapLayer::RedRelief
    } else if value == "osm"@ {
        MapLayer::Osm
    } else if value == "hillshade"@ {
        MapLayer::Hillshade
    } else if value == "blank"@ {
        MapLayer::Blank
    } else if value == "seamless-photo"@ {
        MapLayer::SeamlessPhoto
    } else {
        MapLayer::Gsi
    }
}

impl MapLayer {
    /// Every layer, in the order the selector offers them.
    pub fn all() -> (r: [MapLayer; 6])
        ensures
            r@ == seq![
                MapLayer::Gsi,
                MapLayer::RedRelief,
                MapLayer::Osm,
                MapLayer::Hillshade,
                MapLayer::Blank,
                MapLayer::SeamlessPhoto,
            ],
    {
        let r = [
            MapLayer::Gsi,
            MapLayer::RedRelief,
            MapLayer::Osm,
            MapLayer::Hillshade,
            MapLayer::Blank,
            MapLayer::SeamlessPhoto,
        ];
        assert(r@ =~= seq![
            MapLayer::Gsi,
            MapLayer::RedRelief,
            MapLayer::Osm,
            MapLayer::Hillshade,
            MapLayer::Blank,
            MapLayer::SeamlessPhoto,
        ]);
        r
    }

    /// The selector value of the layer.
    pub fn value(self) -> (r: &'static str)
        ensures
            r@ == layer_value(self),
    {
        match self {
            MapLayer::Gsi => "gsi",
            MapLayer::RedRelief => "red-relief",
            MapLayer::Osm => "osm",
            MapLayer::Hillshade => "hillshade",
            MapLayer::Blank => "blank",
            MapLayer::SeamlessPhoto => "seamless-photo",
        }
    }

    /// The name of the layer shown to the user.
    pub fn label(self) -> (r: &'static str)
        ensures
            self == MapLayer::Gsi ==> r@ == "地理院タイル"@,
            self == MapLayer::RedRelief ==> r@ == "赤色立体図"@,
            self == MapLayer::Osm ==> r@ == "OpenStreetMap"@,
            self == MapLayer::Hillshade ==> r@ == "陰影起伏図"@,
            self == MapLayer::Blank ==> r@ == "白地図"@,
            self == MapLayer::SeamlessPhoto ==> r@ == "航空写真"@,
    {
        match self {
            MapLayer::Gsi => "地理院タイル",
            MapLayer::RedRelief => "赤色立体図",
            MapLayer::Osm => "OpenStreetMap",
            MapLayer::Hillshade => "陰影起伏図",
            MapLayer::Blank => "白地図",
            MapLayer::SeamlessPhoto => "航空写真",
        }
    }

    /// The layer a selector value stands for.
    pub fn from_value(value: &str) -> (r: MapLayer)
        ensures
            r == layer_of_value(value@),
    {
        if str_eq(value, "red-relief") {
            MapLayer::RedRelief
        } else if str_eq(value, "osm") {
            MapLayer::Osm
        } else if str_eq(value, "hillshade") {
            MapLayer::Hillshade
        } else if str_eq(value, "blank") {
            MapLayer::Blank
        } else if str_eq(value, "seamless-photo") {
            MapLayer::SeamlessPhoto
        } else {
            MapLayer::Gsi
        }
    }

    /// The address pattern of the layer's tiles.
    pub fn tile_url(self) -> (r: &'static str)
        ensures
            self == MapLayer::Gsi ==> r@ == "https://cyberjapandata.gsi.go.jp/xyz/std/{z}/{x}/{y}.png"@,
            self == MapLayer::RedRelief ==> r@
                == "https://cyberjapandata.gsi.go.jp/xyz/sekishoku/{z}/{x}/{y}.png"@,
            self == MapLayer::Osm ==> r@ == "https://tile.openstreetmap.org/{z}/{x}/{y}.png"@,
            self == MapLayer::Hillshade ==> r@
                == "https://cyberjapandata.gsi.go.jp/xyz/hillshademap/{z}/{x}/{y}.png"@,
            self == MapLayer::Blank ==> r@
                == "https://cyberjapandata.gsi.go.jp/xyz/blank/{z}/{x}/{y}.png"@,
            self == MapLayer::SeamlessPhoto ==> r@
                == "https://cyberjapandata.gsi.go.jp/xyz/seamlessphoto/{z}/{x}/{y}.jpg"@,
    {
        match self {
            MapLayer::Gsi => "https://cyberjapandata.gsi.go.jp/xyz/std/{z}/{x}/{y}.png",
            MapLayer::RedRelief => "https://cyberjapandata.gsi.go.jp/xyz/sekishoku/{z}/{x}/{y}.png",
            MapLayer::Osm => "https://tile.openstreetmap.org/{z}/{x}/{y}.png",
            MapLayer::Hillshade => "https://cyberjapandata.gsi.go.jp/xyz/hillshademap/{z}/{x}/{y}.png",
            MapLayer::Blank => "https://cyberjapandata.gsi.go.jp/xyz/blank/{z}/{x}/{y}.png",
            MapLayer::SeamlessPhoto => {
                "https://cyberjapandata.gsi.go.jp/xyz/seamlessphoto/{z}/{x}/{y}.jpg"
            },
        }
    }

    /// The credit line the layer must be shown with.
    pub fn attribution(self) -> (r: &'static str)
        ensures
            self == MapLayer::Osm ==> r@
                == "&copy; <a href=\"https://www.openstreetmap.org/copyright\">OpenStreetMap</a> contributors"@,
            self != MapLayer::Osm ==> r@
                == "<a href=\"https://maps.gsi.go.jp/development/ichiran.html\" target=\"_blank\">地理院タイル</a>"@,
    {
        match self {
            MapLayer::Osm => {
                "&copy; <a href=\"https://www.openstreetmap.org/copyright\">OpenStreetMap</a> contributors"
            },
            _ => {
                "<a href=\"https://maps.gsi.go.jp/development/ichiran.html\" target=\"_blank\">地理院タイル</a>"
            },
        }
    }
}

/// Choosing a layer's own selector value selects that layer again, and the
/// selector values of the layers are pairwise different.
pub proof fn lemma_layer_value_round_trip(layer: MapLayer, other: MapLayer)
    ensures
        layer_of_value(layer_value(layer)) == layer,
        layer != other ==> layer_value(layer) != layer_value(other),
{
    reveal_strlit("gsi");
    reveal_strlit("red-relief");
    reveal_strlit("osm");
    reveal_strlit("hillshade");
    reveal_strlit("blank");
    reveal_strlit("seamless-photo");
    // The values differ in their length or in their first letter.
    assert("gsi"@.len() == 3 && "gsi"@[0] == 'g');
    assert("red-relief"@.len() == 10 && "red-relief"@[0] == 'r');
    assert("osm"@.len() == 3 && "osm"@[0] == 'o');
    assert("hillshade"@.len() == 9 && "hillshade"@[0] == 'h');
    assert("blank"@.len() == 5 && "blank"@[0] == 'b');
    assert("seamless-photo"@.len() == 14 && "seamless-photo"@[0] == 's');
}

/// Everything the map shows: the rivers and the waypoints and tracks of all
/// of them.
pub struct MapData {
    pub rivers: Vec<River>,
    pub waypoints: Vec<RiverWaypoint>,
    pub tracks: Vec<RiverTrack>,
}

impl MapData {
    /// The rivers, before the waypoints and tracks of any of them are loaded.
    pub fn from_rivers(rivers: Vec<River>) -> (r: Self)
        ensures
            r.rivers@ == rivers@,
            r.waypoints@.len() == 0,
            r.tracks@.len() == 0,
    {
        MapData { rivers, waypoints: Vec::new(), tracks: Vec::new() }
    }

    /// The waypoints and tracks of one more river are appended, in the order
    /// the service gave them.
    pub fn add_river_detail(&mut self, detail: get_river::Response)
        ensures
            final(self).rivers@ == old(self).rivers@,
            final(self).waypoints@ == old(self).waypoints@ + detail.waypoints@,
            final(self).tracks@ == old(self).tracks@ + detail.tracks@,
    {
        let mut waypoints = detail.waypoints;
        let mut tracks = detail.tracks;
        self.waypoints.append(&mut waypoints);
        self.tracks.append(&mut tracks);
    }
}

} // verus!
