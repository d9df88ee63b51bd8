//! The point-of-interest classifier and loader.
use crate::cost::sqrt_of;
use crate::cost::sqrt_rank;
use crate::filters::tag_is;
use crate::geometry::BoundingRing;
use crate::geometry::projected_of;
use crate::geometry::project_rank;
use crate::geometry::ring_contains;
use crate::geometry::ring_contains_of;
use crate::metrics::MetricError;
use crate::pbf::Latitude;
use crate::pbf::LoaderBuildError;
use crate::pbf::Longitude;
use crate::pbf::Node;
use crate::pbf::OsmNodeId;
use crate::pbf::SOURCE_CRS;
use crate::spatial::SpatialIndex;
use crate::spatial::dist_sq_of;
use crate::spatial::nearest_index;
use crate::spatial::lemma_nearest_index;
use crate::spatial::project_nodes;
use crate::spatial::spec_projected_nodes;
use crate::spatial::lemma_projected_nodes_len;
use crate::tags::TagSet;
use vstd::prelude::*;

verus! {

/// The category of a point of interest.
#[derive(Clone, Copy, PartialEq, Eq, Structural, Debug)]
pub enum PoiType {
    Grocery,
    Education,
    Health,
    Banks,
    Parks,
    Sustenance,
    Shops,
}

/// A point of interest: its source node, its position, the nearest
/// reference node and the planar distance to it (as a rank), and its
/// category.
#[derive(Clone, Copy, PartialEq, Eq, Structural, Debug)]
pub struct Poi {
    pub osm_id: OsmNodeId,
    pub lat: Latitude,
    pub long: Longitude,
    pub nearest_osm_node: OsmNodeId,
    pub dist_to_nearest: u64,
    pub poi_type: PoiType,
}

impl Poi {
    pub fn new(
        osm_id: OsmNodeId,
        lat: Latitude,
        long: Longitude,
        nearest_osm_node: OsmNodeId,
        dist_to_nearest: u64,
        poi_type: PoiType,
    ) -> (r: Poi)
        ensures
            r == (Poi { osm_id, lat, long, nearest_osm_node, dist_to_nearest, poi_type }),
    {
        Poi { osm_id, lat, long, nearest_osm_node, dist_to_nearest, poi_type }
    }
}

/// A tagged point entity as read from the extract.
pub struct TaggedNode {
    pub osm_id: OsmNodeId,
    pub lat: Latitude,
    pub long: Longitude,
    pub tags: TagSet,
}

/// Whether the tags mark a park point of interest.
pub open spec fn is_park_of(m: Map<Seq<char>, Seq<char>>) -> bool {
    ||| tag_is(m, "leisure"@, "park"@)
    ||| tag_is(m, "leisure"@, "dog park"@)
}

fn is_park(tags: &TagSet) -> (r: bool)
    ensures
        r == is_park_of(tags@),
{
    tags.contains_pair("leisure", "park")
            || tags.contains_pair("leisure", "dog park")
}

/// Whether the tags mark a bank point of interest.
pub open spec fn is_bank_of(m: Map<Seq<char>, Seq<char>>) -> bool {
    ||| tag_is(m, "amenity"@, "atm"@)
    ||| tag_is(m, "amenity"@, "bank"@)
    ||| tag_is(m, "amenity"@, "bureau de change"@)
    ||| tag_is(m, "amenity"@, "post office"@)
}

fn is_bank(tags: &TagSet) -> (r: bool)
    ensures
        r == is_bank_of(tags@),
{
    tags.contains_pair("amenity", "atm")
            || tags.contains_pair("amenity", "bank")
            || tags.contains_pair("amenity", "bureau de change")
            || tags.contains_pair("amenity", "post office")
}

/// Whether the tags mark a health point of interest.
pub open spec fn is_health_of(m: Map<Seq<char>, Seq<char>>) -> bool {
    ||| tag_is(m, "amenity"@, "clinic"@)
    ||| tag_is(m, "amenity"@, "dentist"@)
    ||| tag_is(m, "amenity"@, "doctors"@)
    ||| tag_is(m, "amenity"@, "hospital"@)
    ||| tag_is(m, "amenity"@, "nursing home"@)
    ||| tag_is(m, "amenity"@, "pharmacy"@)
    ||| tag_is(m, "amenity"@, "social facility"@)
}

fn is_health(tags: &TagSet) -> (r: bool)
    ensures
        r == is_health_of(tags@),
{
    tags.contains_pair("amenity", "clinic")
            || tags.contains_pair("amenity", "dentist")
            || tags.contains_pair("amenity", "doctors")
            || tags.contains_pair("amenity", "hospital")
            || tags.contains_pair("amenity", "nursing home")
            || tags.contains_pair("amenity", "pharmacy")
            || tags.contains_pair("amenity", "social facility")
}

/// Whether the tags mark a education point of interest.
pub open spec fn is_education_of(m: Map<Seq<char>, Seq<char>>) -> bool {
    ||| tag_is(m, "amenity"@, "college"@)
    ||| tag_is(m, "amenity"@, "driving school"@)
    ||| tag_is(m, "amenity"@, "kindergarten"@)
    ||| tag_is(m, "amenity"@, "language school"@)
    ||| tag_is(m, "amenity"@, "music school"@)
    ||| tag_is(m, "amenity"@, "school"@)
    ||| tag_is(m, "amenity"@, "university"@)
}

fn is_education(tags: &TagSet) -> (r: bool)
    ensures
        r == is_education_of(tags@),
{
    tags.contains_pair("amenity", "college")
            || tags.contains_pair("amenity", "driving school")
            || tags.contains_pair("amenity", "kindergarten")
            || tags.contains_pair("amenity", "language school")
            || tags.contains_pair("amenity", "music school")
            || tags.contains_pair("amenity", "school")
            || tags.contains_pair("amenity", "university")
}

/// Whether the tags mark a sustenance point of interest.
pub open spec fn is_sustenance_of(m: Map<Seq<char>, Seq<char>>) -> bool {
    ||| tag_is(m, "amenity"@, "restaurant"@)
    ||| tag_is(m, "amenity"@, "pub"@)
    ||| tag_is(m, "amenity"@, "bar"@)
    ||| tag_is(m, "amenity"@, "cafe"@)
    ||| tag_is(m, "amenity"@, "fast-food"@)
    ||| tag_is(m, "amenity"@, "food court"@)
    ||| tag_is(m, "amenity"@, "ice-cream"@)
    ||| tag_is(m, "amenity"@, "biergarten"@)
}

fn is_sustenance(tags: &TagSet) -> (r: bool)
    ensures
        r == is_sustenance_of(tags@),
{
    tags.contains_pair("amenity", "restaurant")
            || tags.contains_pair("amenity", "pub")
            || tags.contains_pair("amenity", "bar")
            || tags.contains_pair("amenity", "cafe")
            || tags.contains_pair("amenity", "fast-food")
            || tags.contains_pair("amenity", "food court")
            || tags.contains_pair("amenity", "ice-cream")
            || tags.contains_pair("amenity", "biergarten")
}

/// Whether the tags mark a grocery point of interest.
pub open spec fn is_grocery_of(m: Map<Seq<char>, Seq<char>>) -> bool {
    ||| tag_is(m, "shop"@, "alcohol"@)
    ||| tag_is(m, "shop"@, "bakery"@)
    ||| tag_is(m, "shop"@, "beverages"@)
    ||| tag_is(m, "shop"@, "brewing supplies"@)
    ||| tag_is(m, "shop"@, "butcher"@)
    ||| tag_is(m, "shop"@, "cheese"@)
    ||| tag_is(m, "shop"@, "chocolate"@)
    ||| tag_is(m, "shop"@, "coffee"@)
    ||| tag_is(m, "shop"@, "confectionery"@)
    ||| tag_is(m, "shop"@, "convenience"@)
    ||| tag_is(m, "shop"@, "deli"@)
    ||| tag_is(m, "shop"@, "dairy"@)
    ||| tag_is(m, "shop"@, "farm"@)
    ||| tag_is(m, "shop"@, "frozen food"@)
    ||| tag_is(m, "shop"@, "greengrocer"@)
    ||| tag_is(m, "shop"@, "health food"@)
    ||| tag_is(m, "shop"@, "ice-cream"@)
    ||| tag_is(m, "shop"@, "pasta"@)
    ||| tag_is(m, "shop"@, "pastry"@)
    ||| tag_is(m, "shop"@, "seafood"@)
    ||| tag_is(m, "shop"@, "spices"@)
    ||| tag_is(m, "shop"@, "tea"@)
    ||| tag_is(m, "shop"@, "water"@)
    ||| tag_is(m, "shop"@, "supermarket"@)
    ||| tag_is(m, "shop"@, "department store"@)
    ||| tag_is(m, "shop"@, "general"@)
    ||| tag_is(m, "shop"@, "kiosk"@)
    ||| tag_is(m, "shop"@, "mall"@)
}

fn is_grocery(tags: &TagSet) -> (r: bool)
    ensures
        r == is_grocery_of(tags@),
{
    tags.contains_pair("shop", "alcohol")
            || tags.contains_pair("shop", "bakery")
            || tags.contains_pair("shop", "beverages")
            || tags.contains_pair("shop", "brewing supplies")
            || tags.contains_pair("shop", "butcher")
            || tags.contains_pair("shop", "cheese")
            || tags.contains_pair("shop", "chocolate")
            || tags.contains_pair("shop", "coffee")
            || tags.contains_pair("shop", "confectionery")
            || tags.contains_pair("shop", "convenience")
            || tags.contains_pair("shop", "deli")
            || tags.contains_pair("shop", "dairy")
            || tags.contains_pair("shop", "farm")
            || tags.contains_pair("shop", "frozen food")
            || tags.contains_pair("shop", "greengrocer")
            || tags.contains_pair("shop", "health food")
            || tags.contains_pair("shop", "ice-cream")
            || tags.contains_pair("shop", "pasta")
            || tags.contains_pair("shop", "pastry")
            || tags.contains_pair("shop", "seafood")
            || tags.contains_pair("shop", "spices")
            || tags.contains_pair("shop", "tea")
            || tags.contains_pair("shop", "water")
            || tags.contains_pair("shop", "supermarket")
            || tags.contains_pair("shop", "department store")
            || tags.contains_pair("shop", "general")
            || tags.contains_pair("shop", "kiosk")
            || tags.contains_pair("shop", "mall")
}

/// Whether the tags mark a shop point of interest.
pub open spec fn is_shop_of(m: Map<Seq<char>, Seq<char>>) -> bool {
    ||| tag_is(m, "shop"@, "department store"@)
    ||| tag_is(m, "shop"@, "general"@)
    ||| tag_is(m, "shop"@, "kiosk"@)
    ||| tag_is(m, "shop"@, "mall"@)
    ||| tag_is(m, "shop"@, "wholesale"@)
    ||| tag_is(m, "shop"@, "baby goods"@)
    ||| tag_is(m, "shop"@, "bag"@)
    ||| tag_is(m, "shop"@, "boutique"@)
    ||| tag_is(m, "shop"@, "clothes"@)
    ||| tag_is(m, "shop"@, "fabric"@)
    ||| tag_is(m, "shop"@, "fashion accessories"@)
    ||| tag_is(m, "shop"@, "jewelry"@)
    ||| tag_is(m, "shop"@, "leather"@)
    ||| tag_is(m, "shop"@, "watches"@)
    ||| tag_is(m, "shop"@, "wool"@)
    ||| tag_is(m, "shop"@, "charity"@)
    ||| tag_is(m, "shop"@, "secondhand"@)
    ||| tag_is(m, "shop"@, "variety store"@)
    ||| tag_is(m, "shop"@, "beauty"@)
    ||| tag_is(m, "shop"@, "chemist"@)
    ||| tag_is(m, "shop"@, "cosmetics"@)
    ||| tag_is(m, "shop"@, "erotic"@)
    ||| tag_is(m, "shop"@, "hairdresser"@)
    ||| tag_is(m, "shop"@, "hairdresser supply"@)
    ||| tag_is(m, "shop"@, "hearing aids"@)
    ||| tag_is(m, "shop"@, "herbalist"@)
    ||| tag_is(m, "shop"@, "massage"@)
    ||| tag_is(m, "shop"@, "medical supply"@)
    ||| tag_is(m, "shop"@, "nutrition supplements"@)
    ||| tag_is(m, "shop"@, "optician"@)
    ||| tag_is(m, "shop"@, "perfumery"@)
    ||| tag_is(m, "shop"@, "tattoo"@)
    ||| tag_is(m, "shop"@, "agrarian"@)
    ||| tag_is(m, "shop"@, "appliance"@)
    ||| tag_is(m, "shop"@, "bathroom furnishing"@)
    ||| tag_is(m, "shop"@, "do-it-yourself"@)
    ||| tag_is(m, "shop"@, "electrical"@)
    ||| tag_is(m, "shop"@, "energy"@)
    ||| tag_is(m, "shop"@, "\u{fb01}replace"@)
    ||| tag_is(m, "shop"@, "\u{fb02}orist"@)
    ||| tag_is(m, "shop"@, "garden centre"@)
    ||| tag_is(m, "shop"@, "garden furniture"@)
    ||| tag_is(m, "amenity"@, "fuel"@)
    ||| tag_is(m, "shop"@, "glaziery"@)
    ||| tag_is(m, "shop"@, "groundskeeping"@)
    ||| tag_is(m, "shop"@, "hardware"@)
    ||| tag_is(m, "shop"@, "houseware"@)
    ||| tag_is(m, "shop"@, "locksmith"@)
    ||| tag_is(m, "shop"@, "paint"@)
    ||| tag_is(m, "shop"@, "security"@)
    ||| tag_is(m, "shop"@, "trade"@)
    ||| tag_is(m, "shop"@, "antiques"@)
    ||| tag_is(m, "shop"@, "bed"@)
    ||| tag_is(m, "shop"@, "candles"@)
    ||| tag_is(m, "shop"@, "carpet"@)
    ||| tag_is(m, "shop"@, "curtain"@)
    ||| tag_is(m, "shop"@, "doors"@)
    ||| tag_is(m, "shop"@, "\u{fb02}ooring"@)
    ||| tag_is(m, "shop"@, "furniture"@)
    ||| tag_is(m, "shop"@, "household linen"@)
    ||| tag_is(m, "shop"@, "interior decoration"@)
    ||| tag_is(m, "shop"@, "kitchen"@)
    ||| tag_is(m, "shop"@, "lighting"@)
    ||| tag_is(m, "shop"@, "tiles"@)
    ||| tag_is(m, "shop"@, "window blind"@)
    ||| tag_is(m, "shop"@, "computer"@)
    ||| tag_is(m, "shop"@, "electronics"@)
    ||| tag_is(m, "shop"@, "hi\u{fb01}"@)
    ||| tag_is(m, "shop"@, "mobile phone"@)
    ||| tag_is(m, "shop"@, "radio-technics"@)
    ||| tag_is(m, "shop"@, "vacuum cleaner"@)
    ||| tag_is(m, "shop"@, "bicycle"@)
    ||| tag_is(m, "shop"@, "boat"@)
    ||| tag_is(m, "shop"@, "car"@)
    ||| tag_is(m, "shop"@, "repair"@)
    ||| tag_is(m, "shop"@, "car parts"@)
    ||| tag_is(m, "shop"@, "caravan"@)
    ||| tag_is(m, "shop"@, "fuel"@)
    ||| tag_is(m, "shop"@, "\u{fb01}shing"@)
    ||| tag_is(m, "shop"@, "golf"@)
    ||| tag_is(m, "shop"@, "hunting"@)
    ||| tag_is(m, "shop"@, "jet ski"@)
    ||| tag_is(m, "shop"@, "military surplus"@)
    ||| tag_is(m, "shop"@, "motorcycle"@)
    ||| tag_is(m, "shop"@, "outdoor"@)
    ||| tag_is(m, "shop"@, "scuba diving"@)
    ||| tag_is(m, "shop"@, "ski"@)
    ||| tag_is(m, "shop"@, "snowmobile"@)
    ||| tag_is(m, "shop"@, "swimming pool"@)
    ||| tag_is(m, "shop"@, "trailer"@)
    ||| tag_is(m, "shop"@, "tyres"@)
    ||| tag_is(m, "shop"@, "art"@)
    ||| tag_is(m, "shop"@, "collector"@)
    ||| tag_is(m, "shop"@, "craft"@)
    ||| tag_is(m, "shop"@, "frame"@)
    ||| tag_is(m, "shop"@, "games"@)
    ||| tag_is(m, "shop"@, "model"@)
    ||| tag_is(m, "shop"@, "music"@)
    ||| tag_is(m, "shop"@, "musical instrument"@)
    ||| tag_is(m, "shop"@, "photo"@)
    ||| tag_is(m, "shop"@, "camera"@)
    ||| tag_is(m, "shop"@, "trophy"@)
    ||| tag_is(m, "shop"@, "video"@)
    ||| tag_is(m, "shop"@, "videogames"@)
    ||| tag_is(m, "shop"@, "anime"@)
    ||| tag_is(m, "shop"@, "books"@)
    ||| tag_is(m, "shop"@, "gift"@)
    ||| tag_is(m, "shop"@, "lottery"@)
    ||| tag_is(m, "shop"@, "newsagent"@)
    ||| tag_is(m, "shop"@, "stationery"@)
    ||| tag_is(m, "shop"@, "ticket"@)
    ||| tag_is(m, "shop"@, "bookmaker"@)
    ||| tag_is(m, "shop"@, "cannabis"@)
    ||| tag_is(m, "shop"@, "copy node"@)
    ||| tag_is(m, "shop"@, "drycleaning"@)
    ||| tag_is(m, "shop"@, "e-cigarette"@)
    ||| tag_is(m, "shop"@, "funeral directors"@)
    ||| tag_is(m, "shop"@, "laundry"@)
    ||| tag_is(m, "shop"@, "moneylender"@)
    ||| tag_is(m, "shop"@, "party"@)
    ||| tag_is(m, "shop"@, "pawnbroker"@)
    ||| tag_is(m, "shop"@, "pet"@)
    ||| tag_is(m, "shop"@, "grooming"@)
    ||| tag_is(m, "shop"@, "pest control"@)
    ||| tag_is(m, "shop"@, "pyrotechnics"@)
    ||| tag_is(m, "shop"@, "religion"@)
    ||| tag_is(m, "shop"@, "storage rental"@)
    ||| tag_is(m, "shop"@, "tobacco"@)
    ||| tag_is(m, "shop"@, "toys"@)
    ||| tag_is(m, "shop"@, "travel agency"@)
    ||| tag_is(m, "shop"@, "vacant"@)
    ||| tag_is(m, "shop"@, "weapons"@)
    ||| tag_is(m, "shop"@, "outpost"@)
}

fn is_shop(tags: &TagSet) -> (r: bool)
    ensures
        r == is_shop_of(tags@),
{
    tags.contains_pair("shop", "department store")
            || tags.contains_pair("shop", "general")
            || tags.contains_pair("shop", "kiosk")
            || tags.contains_pair("shop", "mall")
            || tags.contains_pair("shop", "wholesale")
            || tags.contains_pair("shop", "baby goods")
            || tags.contains_pair("shop", "bag")
            || tags.contains_pair("shop", "boutique")
            || tags.contains_pair("shop", "clothes")
            || tags.contains_pair("shop", "fabric")
            || tags.contains_pair("shop", "fashion accessories")
            || tags.contains_pair("shop", "jewelry")
            || tags.contains_pair("shop", "leather")
            || tags.contains_pair("shop", "watches")
            || tags.contains_pair("shop", "wool")
            || tags.contains_pair("shop", "charity")
            || tags.contains_pair("shop", "secondhand")
            || tags.contains_pair("shop", "variety store")
            || tags.contains_pair("shop", "beauty")
            || tags.contains_pair("shop", "chemist")
            || tags.contains_pair("shop", "cosmetics")
            || tags.contains_pair("shop", "erotic")
            || tags.contains_pair("shop", "hairdresser")
            || tags.contains_pair("shop", "hairdresser supply")
            || tags.contains_pair("shop", "hearing aids")
            || tags.contains_pair("shop", "herbalist")
            || tags.contains_pair("shop", "massage")
            || tags.contains_pair("shop", "medical supply")
            || tags.contains_pair("shop", "nutrition supplements")
            || tags.contains_pair("shop", "optician")
            || tags.contains_pair("shop", "perfumery")
            || tags.contains_pair("shop", "tattoo")
            || tags.contains_pair("shop", "agrarian")
            || tags.contains_pair("shop", "appliance")
            || tags.contains_pair("shop", "bathroom furnishing")
            || tags.contains_pair("shop", "do-it-yourself")
            || tags.contains_pair("shop", "electrical")
            || tags.contains_pair("shop", "energy")
            || tags.contains_pair("shop", "\u{fb01}replace")
            || tags.contains_pair("shop", "\u{fb02}orist")
            || tags.contains_pair("shop", "garden centre")
            || tags.contains_pair("shop", "garden furniture")
            || tags.contains_pair("amenity", "fuel")
            || tags.contains_pair("shop", "glaziery")
            || tags.contains_pair("shop", "groundskeeping")
            || tags.contains_pair("shop", "hardware")
            || tags.contains_pair("shop", "houseware")
            || tags.contains_pair("shop", "locksmith")
            || tags.contains_pair("shop", "paint")
            || tags.contains_pair("shop", "security")
            || tags.contains_pair("shop", "trade")
            || tags.contains_pair("shop", "antiques")
            || tags.contains_pair("shop", "bed")
            || tags.contains_pair("shop", "candles")
            || tags.contains_pair("shop", "carpet")
            || tags.contains_pair("shop", "curtain")
            || tags.contains_pair("shop", "doors")
            || tags.contains_pair("shop", "\u{fb02}ooring")
            || tags.contains_pair("shop", "furniture")
            || tags.contains_pair("shop", "household linen")
            || tags.contains_pair("shop", "interior decoration")
            || tags.contains_pair("shop", "kitchen")
            || tags.contains_pair("shop", "lighting")
            || tags.contains_pair("shop", "tiles")
            || tags.contains_pair("shop", "window blind")
            || tags.contains_pair("shop", "computer")
            || tags.contains_pair("shop", "electronics")
            || tags.contains_pair("shop", "hi\u{fb01}")
            || tags.contains_pair("shop", "mobile phone")
            || tags.contains_pair("shop", "radio-technics")
            || tags.contains_pair("shop", "vacuum cleaner")
            || tags.contains_pair("shop", "bicycle")
            || tags.contains_pair("shop", "boat")
            || tags.contains_pair("shop", "car")
            || tags.contains_pair("shop", "repair")
            || tags.contains_pair("shop", "car parts")
            || tags.contains_pair("shop", "caravan")
            || tags.contains_pair("shop", "fuel")
            || tags.contains_pair("shop", "\u{fb01}shing")
            || tags.contains_pair("shop", "golf")
            || tags.contains_pair("shop", "hunting")
            || tags.contains_pair("shop", "jet ski")
            || tags.contains_pair("shop", "military surplus")
            || tags.contains_pair("shop", "motorcycle")
            || tags.contains_pair("shop", "outdoor")
            || tags.contains_pair("shop", "scuba diving")
            || tags.contains_pair("shop", "ski")
            || tags.contains_pair("shop", "snowmobile")
            || tags.contains_pair("shop", "swimming pool")
            || tags.contains_pair("shop", "trailer")
            || tags.contains_pair("shop", "tyres")
            || tags.contains_pair("shop", "art")
            || tags.contains_pair("shop", "collector")
            || tags.contains_pair("shop", "craft")
            || tags.contains_pair("shop", "frame")
            || tags.contains_pair("shop", "games")
            || tags.contains_pair("shop", "model")
            || tags.contains_pair("shop", "music")
            || tags.contains_pair("shop", "musical instrument")
            || tags.contains_pair("shop", "photo")
            || tags.contains_pair("shop", "camera")
            || tags.contains_pair("shop", "trophy")
            || tags.contains_pair("shop", "video")
            || tags.contains_pair("shop", "videogames")
            || tags.contains_pair("shop", "anime")
            || tags.contains_pair("shop", "books")
            || tags.contains_pair("shop", "gift")
            || tags.contains_pair("shop", "lottery")
            || tags.contains_pair("shop", "newsagent")
            || tags.contains_pair("shop", "stationery")
            || tags.contains_pair("shop", "ticket")
            || tags.contains_pair("shop", "bookmaker")
            || tags.contains_pair("shop", "cannabis")
            || tags.contains_pair("shop", "copy node")
            || tags.contains_pair("shop", "drycleaning")
            || tags.contains_pair("shop", "e-cigarette")
            || tags.contains_pair("shop", "funeral directors")
            || tags.contains_pair("shop", "laundry")
            || tags.contains_pair("shop", "moneylender")
            || tags.contains_pair("shop", "party")
            || tags.contains_pair("shop", "pawnbroker")
            || tags.contains_pair("shop", "pet")
            || tags.contains_pair("shop", "grooming")
            || tags.contains_pair("shop", "pest control")
            || tags.contains_pair("shop", "pyrotechnics")
            || tags.contains_pair("shop", "religion")
            || tags.contains_pair("shop", "storage rental")
            || tags.contains_pair("shop", "tobacco")
            || tags.contains_pair("shop", "toys")
            || tags.contains_pair("shop", "travel agency")
            || tags.contains_pair("shop", "vacant")
            || tags.contains_pair("shop", "weapons")
            || tags.contains_pair("shop", "outpost")
}

/// The category of a node, decided in a fixed priority order: parks, then
/// financial, then health, then education, then food and drink, then
/// grocery, then general retail; the first matching table wins, and a node
/// matching none is no point of interest.
pub open spec fn classify_of(m: Map<Seq<char>, Seq<char>>) -> Option<PoiType> {
    if is_park_of(m) {
        Some(PoiType::Parks)
    } else if is_bank_of(m) {
        Some(PoiType::Banks)
    } else if is_health_of(m) {
        Some(PoiType::Health)
    } else if is_education_of(m) {
        Some(PoiType::Education)
    } else if is_sustenance_of(m) {
        Some(PoiType::Sustenance)
    } else if is_grocery_of(m) {
        Some(PoiType::Grocery)
    } else if is_shop_of(m) {
        Some(PoiType::Shops)
    } else {
        None
    }
}

/// The category of a node, from its tags alone.
pub fn identify_type(tags: &TagSet) -> (r: Option<PoiType>)
    ensures
        r == classify_of(tags@),
{
    if is_park(tags) {
        Some(PoiType::Parks)
    } else if is_bank(tags) {
        Some(PoiType::Banks)
    } else if is_health(tags) {
        Some(PoiType::Health)
    } else if is_education(tags) {
        Some(PoiType::Education)
    } else if is_sustenance(tags) {
        Some(PoiType::Sustenance)
    } else if is_grocery(tags) {
        Some(PoiType::Grocery)
    } else if is_shop(tags) {
        Some(PoiType::Shops)
    } else {
        None
    }
}

/// The point-of-interest extractor: matches classified nodes to the
/// nearest reference node in the planar system.
pub struct PoiLoader {
    pub pbf_path: String,
    pub filter_geometry: Option<BoundingRing>,
    pub target_crs: u16,
    pub index: SpatialIndex,
    pub nodes_to_match: Vec<Node>,
}

/// The loader's configuration, gathered field by field; `build` validates
/// it and projects the reference nodes.
pub struct PoiLoaderBuilder {
    pub pbf_path: Option<String>,
    pub filter_geometry: Option<BoundingRing>,
    pub target_crs: Option<u16>,
    pub nodes_to_match: Option<Vec<Node>>,
}

impl Default for PoiLoaderBuilder {
    /// A builder with no field set.
    fn default() -> (r: Self)
        ensures
            r.pbf_path is None,
            r.filter_geometry is None,
            r.target_crs is None,
            r.nodes_to_match is None,
    {
        PoiLoaderBuilder { pbf_path: None, filter_geometry: None, target_crs: None, nodes_to_match: None }
    }
}

impl PoiLoaderBuilder {
    /// Sets the path of the extract to load.
    pub fn pbf_path(&mut self, value: String) -> (ret: &mut Self)
        ensures
            *ret == (PoiLoaderBuilder { pbf_path: Some(value), ..*old(self) }),
            *final(self) == *final(ret),
    {
        self.pbf_path = Some(value);
        self
    }

    /// Sets the path of the extract to load, from a string slice.
    pub fn pbf_path_from_str(&mut self, value: &str) -> (ret: &mut Self)
        ensures
            ret.pbf_path is Some && ret.pbf_path.unwrap()@ == value@,
            *ret == (PoiLoaderBuilder { pbf_path: ret.pbf_path, ..*old(self) }),
            *final(self) == *final(ret),
    {
        self.pbf_path = Some(value.to_owned());
        self
    }

    /// Sets the bounding region that points of interest must lie in.
    pub fn filter_geometry(&mut self, value: BoundingRing) -> (ret: &mut Self)
        ensures
            *ret == (PoiLoaderBuilder { filter_geometry: Some(value), ..*old(self) }),
            *final(self) == *final(ret),
    {
        self.filter_geometry = Some(value);
        self
    }

    /// Sets the planar system that matching distances are measured in.
    pub fn target_crs(&mut self, value: u16) -> (ret: &mut Self)
        ensures
            *ret == (PoiLoaderBuilder { target_crs: Some(value), ..*old(self) }),
            *final(self) == *final(ret),
    {
        self.target_crs = Some(value);
        self
    }

    /// Sets the reference nodes that points of interest are matched to.
    pub fn nodes_to_match(&mut self, value: Vec<Node>) -> (ret: &mut Self)
        ensures
            *ret == (PoiLoaderBuilder { nodes_to_match: Some(value), ..*old(self) }),
            *final(self) == *final(ret),
    {
        self.nodes_to_match = Some(value);
        self
    }

    /// Validates the configuration and builds the matcher's index: the
    /// target system, a nonempty reference node set and the path are
    /// required, and every reference node must reproject; the error names
    /// what was missing or failed.
    pub fn build(self) -> (r: Result<PoiLoader, LoaderBuildError>)
        ensures
            match r {
                Ok(l) => {
                    &&& self.target_crs is Some
                    &&& self.pbf_path is Some
                    &&& self.nodes_to_match is Some
                    &&& self.nodes_to_match.unwrap()@.len() > 0
                    &&& spec_projected_nodes(
                        self.nodes_to_match.unwrap()@,
                        self.target_crs.unwrap(),
                    ) == Some(l.index.points@)
                    &&& l == (PoiLoader {
                        pbf_path: self.pbf_path.unwrap(),
                        filter_geometry: self.filter_geometry,
                        target_crs: self.target_crs.unwrap(),
                        index: l.index,
                        nodes_to_match: self.nodes_to_match.unwrap(),
                    })
                    &&& l.wf()
                },
                Err(e) => if self.target_crs is None {
                    e.spec_source() == "target_crs"@
                } else if self.nodes_to_match is None || self.nodes_to_match.unwrap()@.len() == 0 {
                    e.spec_source() == "nodes_to_match"@
                } else if spec_projected_nodes(
                    self.nodes_to_match.unwrap()@,
                    self.target_crs.unwrap(),
                ) is None {
                    e.spec_source() == "projection"@
                } else {
                    self.pbf_path is None && e.spec_source() == "pbf_path"@
                },
            },
    {
        let target_crs = match self.target_crs {
            Some(c) => c,
            None => {
                return Err(LoaderBuildError::new("target_crs".to_owned()));
            },
        };
        let nodes_to_match = match self.nodes_to_match {
            Some(n) => n,
            None => {
                return Err(LoaderBuildError::new("nodes_to_match".to_owned()));
            },
        };
        if nodes_to_match.len() == 0 {
            return Err(LoaderBuildError::new("nodes_to_match".to_owned()));
        }
        let refs = match project_nodes(&nodes_to_match, target_crs) {
            Some(r) => r,
            None => {
                return Err(LoaderBuildError::new("projection".to_owned()));
            },
        };
        proof {
            lemma_projected_nodes_len(nodes_to_match@, target_crs);
        }
        let pbf_path = match self.pbf_path {
            Some(p) => p,
            None => {
                return Err(LoaderBuildError::new("pbf_path".to_owned()));
            },
        };
        Ok(PoiLoader {
            pbf_path,
            filter_geometry: self.filter_geometry,
            target_crs,
            index: SpatialIndex::build(refs),
            nodes_to_match,
        })
    }
}

impl PoiLoader {
    /// The matcher is usable: one planar point per reference node, and at
    /// least one of them.
    pub open spec fn wf(&self) -> bool {
        self.index.points@.len() == self.nodes_to_match@.len() && self.nodes_to_match@.len() > 0
    }

    /// What one tagged node with the planar image `p` yields: nothing when
    /// it lies outside the bounding region or matches no category;
    /// otherwise the point of interest with its category and nearest
    /// reference node.
    pub open spec fn spec_poi_at(&self, n: &TaggedNode, p: (u64, u64)) -> Option<Poi> {
        let outside = match self.filter_geometry {
            Some(ring) => !ring_contains_of(ring@, n.long, n.lat),
            None => false,
        };
        if outside {
            None
        } else {
            match classify_of(n.tags@) {
                Some(t) => {
                    let idx = nearest_index(self.index.points@, p.0, p.1);
                    Some(Poi {
                        osm_id: n.osm_id,
                        lat: n.lat,
                        long: n.long,
                        nearest_osm_node: self.nodes_to_match@[idx].osm_id,
                        dist_to_nearest: sqrt_of(
                            dist_sq_of(
                                p.0,
                                p.1,
                                self.index.points@[idx].0,
                                self.index.points@[idx].1,
                            ),
                        ),
                        poi_type: t,
                    })
                },
                None => None,
            }
        }
    }

    /// The points of interest that a list of tagged nodes yields, in order,
    /// or nothing as soon as a node cannot be reprojected.
    pub open spec fn spec_pois(&self, nodes: Seq<TaggedNode>) -> Option<Seq<Poi>>
        decreases nodes.len(),
    {
        if nodes.len() == 0 {
            Some(Seq::empty())
        } else {
            match self.spec_pois(nodes.drop_last()) {
                Some(pre) => match projected_of(
                    nodes.last().lat,
                    nodes.last().long,
                    SOURCE_CRS,
                    self.target_crs,
                ) {
                    Some(p) => Some(
                        pre + match self.spec_poi_at(&nodes.last(), p) {
                            Some(poi) => seq![poi],
                            None => Seq::empty(),
                        },
                    ),
                    None => None,
                },
                None => None,
            }
        }
    }

    /// A node that cannot be reprojected poisons the whole pass.
    proof fn lemma_pois_poison(&self, nodes: Seq<TaggedNode>, i: int)
        requires
            0 <= i < nodes.len(),
            projected_of(nodes[i].lat, nodes[i].long, SOURCE_CRS, self.target_crs) is None,
        ensures
            self.spec_pois(nodes) is None,
        decreases nodes.len(),
    {
        if i < nodes.len() - 1 {
            assert(nodes.drop_last()[i] == nodes[i]);
            self.lemma_pois_poison(nodes.drop_last(), i);
        }
    }

    /// A point of interest inside the region: a tagged node whose planar
    /// image is `p`, that lies inside the bounding region and matches a
    /// category, yields exactly one record, carrying that category and the
    /// nearest reference node's identifier with the planar distance to it,
    /// minimal over the whole reference set.
    pub proof fn lemma_poi_record(&self, n: &TaggedNode, p: (u64, u64))
        requires
            self.wf(),
            projected_of(n.lat, n.long, SOURCE_CRS, self.target_crs) == Some(p),
            match self.filter_geometry {
                Some(ring) => ring_contains_of(ring@, n.long, n.lat),
                None => true,
            },
            classify_of(n.tags@) is Some,
        ensures
            self.spec_poi_at(n, p) is Some,
            self.spec_pois(seq![*n]) == Some(seq![self.spec_poi_at(n, p).unwrap()]),
            ({
                let poi = self.spec_poi_at(n, p).unwrap();
                let refs = self.index.points@;
                let idx = nearest_index(refs, p.0, p.1);
                &&& 0 <= idx < refs.len()
                &&& poi.osm_id == n.osm_id
                &&& poi.lat == n.lat
                &&& poi.long == n.long
                &&& poi.poi_type == classify_of(n.tags@).unwrap()
                &&& poi.nearest_osm_node == self.nodes_to_match@[idx].osm_id
                &&& poi.dist_to_nearest == sqrt_of(
                    dist_sq_of(p.0, p.1, refs[idx].0, refs[idx].1),
                )
                &&& forall|k: int|
                    0 <= k < refs.len() ==> dist_sq_of(p.0, p.1, refs[idx].0, refs[idx].1)
                        <= dist_sq_of(p.0, p.1, #[trigger] refs[k].0, refs[k].1)
            }),
    {
        lemma_nearest_index(self.index.points@, p.0, p.1);
        let stream = seq![*n];
        assert(stream.drop_last() =~= Seq::<TaggedNode>::empty());
        assert(stream.last() == *n);
        assert(self.spec_pois(Seq::<TaggedNode>::empty()) == Some(Seq::<Poi>::empty()));
        assert(self.spec_pois(stream) == Some(
            Seq::<Poi>::empty() + seq![self.spec_poi_at(n, p).unwrap()],
        ));
        assert(Seq::<Poi>::empty() + seq![self.spec_poi_at(n, p).unwrap()] =~= seq![
            self.spec_poi_at(n, p).unwrap(),
        ]);
    }

    /// Classifies every tagged node and matches it to the nearest reference
    /// node. A node outside the bounding region or matching no category is
    /// silently left out; a node that cannot be reprojected fails the whole
    /// pass with a projection error.
    pub fn load_graph(&self, nodes: &Vec<TaggedNode>) -> (r: Result<Vec<Poi>, MetricError>)
        requires
            self.wf(),
        ensures
            match self.spec_pois(nodes@) {
                Some(ps) => r is Ok && r.unwrap()@ == ps,
                None => r == Err::<Vec<Poi>, MetricError>(MetricError::Projection),
            },
    {
        let mut out: Vec<Poi> = Vec::new();
        let mut i: usize = 0;
        while i < nodes.len()
            invariant
                self.wf(),
                0 <= i <= nodes@.len(),
                self.spec_pois(nodes@.take(i as int)) == Some(out@),
            decreases nodes@.len() - i,
        {
            let n = &nodes[i];
            let ghost before = out@;
            match project_rank(n.lat, n.long, SOURCE_CRS, self.target_crs) {
                Some((x, y)) => {
                    let outside = match &self.filter_geometry {
                        Some(ring) => !ring_contains(ring, n.long, n.lat),
                        None => false,
                    };
                    if !outside {
                        match identify_type(&n.tags) {
                            Some(t) => {
                                let (best, d) = self.index.nearest(x, y);
                                proof {
                                    lemma_nearest_index(self.index.points@, x, y);
                                }
                                let dist = sqrt_rank(d);
                                out.push(
                                    Poi::new(
                                        n.osm_id,
                                        n.lat,
                                        n.long,
                                        self.nodes_to_match[best].osm_id,
                                        dist,
                                        t,
                                    ),
                                );
                            },
                            None => {},
                        }
                    }
                    proof {
                        assert(out@ =~= before + match self.spec_poi_at(&nodes@[i as int], (x, y)) {
                            Some(poi) => seq![poi],
                            None => Seq::<Poi>::empty(),
                        });
                    }
                },
                None => {
                    proof {
                        self.lemma_pois_poison(nodes@, i as int);
                    }
                    return Err(MetricError::Projection);
                },
            }
            proof {
                assert(nodes@.take(i + 1).drop_last() =~= nodes@.take(i as int));
                assert(nodes@.take(i + 1).last() == nodes@[i as int]);
            }
            i += 1;
        }
        proof {
            assert(nodes@.take(nodes@.len() as int) =~= nodes@);
        }
        Ok(out)
    }
}

} // verus!
