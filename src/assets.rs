//! The props that stand on the planet's surface.
use vstd::prelude::*;

pub mod asset;

use asset::{Asset, AssetPolygon, Assets, Decimal};

verus! {

/// The props that `build_assets` provides: four lamps, a lamppost, a
/// wastebin and a hydrant.
pub open spec fn is_prop(t: Seq<char>, s: Seq<char>) -> bool {
    ||| t == "lamp"@ && (s == "1"@ || s == "2"@ || s == "3"@ || s == "4"@)
    ||| t == "lamppost"@ && s == "1"@
    ||| t == "wastebin"@ && s == "1"@
    ||| t == "hydrant"@ && s == "1"@
}

/// At least one polygon, each a triangle list over its own vertices.
pub open spec fn asset_well_formed(a: Asset) -> bool {
    &&& a.polys().len() > 0
    &&& forall|i: int| 0 <= i < a.polys().len() ==> #[trigger] a.polys()[i].is_triangle_list()
}

/// The authored props, each a set of flat-colored polygons given as a
/// triangle list over its vertices, looked up by type and variant.
pub fn build_assets() -> (r: Assets)
    ensures
        forall|t: Seq<char>, s: Seq<char>| #[trigger] r.asset_at(t, s) is Some <==> is_prop(t, s),
        forall|t: Seq<char>, s: Seq<char>|
            #[trigger] r.asset_at(t, s) matches Some(a) ==> asset_well_formed(a),
{
    proof {
        reveal_strlit("1");
        reveal_strlit("2");
        reveal_strlit("3");
        reveal_strlit("4");
        reveal_strlit("hydrant");
        reveal_strlit("lamp");
        reveal_strlit("lamppost");
        reveal_strlit("wastebin");
        assert("lamp"@.len() == 4 && "hydrant"@.len() == 7 && "lamppost"@.len() == 8 && "wastebin"@.len() == 8);
        assert("lamp"@ != "lamppost"@ && "lamp"@ != "wastebin"@ && "lamp"@ != "hydrant"@);
        assert("hydrant"@ != "lamppost"@ && "hydrant"@ != "wastebin"@);
        assert("lamppost"@[0] != "wastebin"@[0]);
        assert("1"@[0] != "2"@[0] && "1"@[0] != "3"@[0] && "1"@[0] != "4"@[0]);
        assert("2"@[0] != "3"@[0] && "2"@[0] != "4"@[0] && "3"@[0] != "4"@[0]);
    }
    let mut assets = Assets::new();
    let a1 = lamp_4();
    let ghost g1 = a1;
    assets.add_asset("lamp".to_owned(), "4".to_owned(), a1);
    let a2 = wastebin_1();
    let ghost g2 = a2;
    assets.add_asset("wastebin".to_owned(), "1".to_owned(), a2);
    let a3 = hydrant_1();
    let ghost g3 = a3;
    assets.add_asset("hydrant".to_owned(), "1".to_owned(), a3);
    let a4 = lamp_2();
    let ghost g4 = a4;
    assets.add_asset("lamp".to_owned(), "2".to_owned(), a4);
    let a5 = lamp_3();
    let ghost g5 = a5;
    assets.add_asset("lamp".to_owned(), "3".to_owned(), a5);
    let a6 = lamp_1();
    let ghost g6 = a6;
    assets.add_asset("lamp".to_owned(), "1".to_owned(), a6);
    let a7 = lamppost_1();
    let ghost g7 = a7;
    assets.add_asset("lamppost".to_owned(), "1".to_owned(), a7);
    proof {
        assert(assets.asset_at("lamp"@, "4"@) == Some(g1));
        assert(assets.asset_at("wastebin"@, "1"@) == Some(g2));
        assert(assets.asset_at("hydrant"@, "1"@) == Some(g3));
        assert(assets.asset_at("lamp"@, "2"@) == Some(g4));
        assert(assets.asset_at("lamp"@, "3"@) == Some(g5));
        assert(assets.asset_at("lamp"@, "1"@) == Some(g6));
        assert(assets.asset_at("lamppost"@, "1"@) == Some(g7));
    }
    assets
}

/// A street lamp, variant 4.
fn lamp_4() -> (a: Asset)
    ensures
        asset_well_formed(a),
        a.polys().len() == 1,
{
    let mut asset = Asset::new();
    let mut poly = AssetPolygon::new((
        Decimal::new(2823529411764706, 16),
        Decimal::new(5294117647058824, 16),
        Decimal::new(392156862745098, 16),
        Decimal::new(1, 0),
    ));
    poly.add_vertex((Decimal::new(-26458333, 8), Decimal::new(0, 1)));
    poly.add_vertex((Decimal::new(-26458333, 8), Decimal::new(2910419999999988, 15)));
    poly.add_vertex((Decimal::new(66145835, 7), Decimal::new(2910419999999988, 15)));
    poly.add_vertex((Decimal::new(66145835, 7), Decimal::new(2116669999999999, 15)));
    poly.add_vertex((Decimal::new(9392708500000001, 15), Decimal::new(6614599999999768, 16)));
    poly.add_vertex((Decimal::new(10186458000000002, 15), Decimal::new(-6614600000000337, 16)));
    poly.add_vertex((Decimal::new(3042708300000002, 15), Decimal::new(-6614600000000337, 16)));
    poly.add_vertex((Decimal::new(3836458300000002, 15), Decimal::new(6614599999999768, 16)));
    poly.add_vertex((Decimal::new(6350000200000002, 15), Decimal::new(2116669999999999, 15)));
    poly.add_vertex((Decimal::new(6350000200000002, 15), Decimal::new(26458299999999895, 16)));
    poly.add_vertex((Decimal::new(26458333000000156, 17), Decimal::new(26458299999999895, 16)));
    poly.add_vertex((Decimal::new(26458333000000156, 17), Decimal::new(0, 1)));
    poly.add_index(0); poly.add_index(11); poly.add_index(10);
    poly.add_index(8); poly.add_index(7); poly.add_index(6);
    poly.add_index(8); poly.add_index(6); poly.add_index(5);
    poly.add_index(8); poly.add_index(5); poly.add_index(4);
    poly.add_index(8); poly.add_index(4); poly.add_index(3);
    poly.add_index(1); poly.add_index(0); poly.add_index(10);
    poly.add_index(9); poly.add_index(8); poly.add_index(3);
    poly.add_index(9); poly.add_index(3); poly.add_index(2);
    poly.add_index(2); poly.add_index(1); poly.add_index(10);
    poly.add_index(2); poly.add_index(10); poly.add_index(9);
    assert(poly.is_triangle_list());
    asset.add_polygon(poly);
    asset
}

/// A wastebin, variant 1.
fn wastebin_1() -> (a: Asset)
    ensures
        asset_well_formed(a),
        a.polys().len() == 2,
{
    let mut asset = Asset::new();
    let mut poly = AssetPolygon::new((
        Decimal::new(45098039215686275, 17),
        Decimal::new(9137254901960784, 16),
        Decimal::new(11764705882352941, 18),
        Decimal::new(1, 0),
    ));
    poly.add_vertex((Decimal::new(27781248, 7), Decimal::new(0, 1)));
    poly.add_vertex((Decimal::new(29104165, 7), Decimal::new(1322900000000118, 16)));
    poly.add_vertex((Decimal::new(29104165, 7), Decimal::new(9260400000000004, 16)));
    poly.add_vertex((Decimal::new(27781248, 7), Decimal::new(1058339999999987, 15)));
    poly.add_vertex((Decimal::new(23812499000000003, 16), Decimal::new(1058339999999987, 15)));
    poly.add_vertex((Decimal::new(23812499000000003, 16), Decimal::new(8202079999999967, 15)));
    poly.add_vertex((Decimal::new(31749999000000004, 16), Decimal::new(8731249999999989, 15)));
    poly.add_vertex((Decimal::new(29104166000000005, 16), Decimal::new(10186460000000011, 15)));
    poly.add_vertex((Decimal::new(-60000001, 15), Decimal::new(1058332999999999, 14)));
    poly.add_vertex((Decimal::new(-29104168, 7), Decimal::new(1018644999999998, 14)));
    poly.add_vertex((Decimal::new(-31750001, 7), Decimal::new(8731249999999989, 15)));
    poly.add_vertex((Decimal::new(-23812501, 7), Decimal::new(8202079999999967, 15)));
    poly.add_vertex((Decimal::new(-23812501, 7), Decimal::new(1058339999999987, 15)));
    poly.add_vertex((Decimal::new(-27781251, 7), Decimal::new(1058339999999987, 15)));
    poly.add_vertex((Decimal::new(-29104168, 7), Decimal::new(9260400000000004, 16)));
    poly.add_vertex((Decimal::new(-29104168, 7), Decimal::new(1322900000000118, 16)));
    poly.add_vertex((Decimal::new(-27781251, 7), Decimal::new(0, 1)));
    poly.add_index(16); poly.add_index(0); poly.add_index(1);
    poly.add_index(16); poly.add_index(1); poly.add_index(2);
    poly.add_index(16); poly.add_index(2); poly.add_index(3);
    poly.add_index(16); poly.add_index(3); poly.add_index(4);
    poly.add_index(5); poly.add_index(6); poly.add_index(7);
    poly.add_index(5); poly.add_index(7); poly.add_index(8);
    poly.add_index(5); poly.add_index(8); poly.add_index(9);
    poly.add_index(5); poly.add_index(9); poly.add_index(10);
    poly.add_index(5); poly.add_index(10); poly.add_index(11);
    poly.add_index(12); poly.add_index(13); poly.add_index(14);
    poly.add_index(12); poly.add_index(14); poly.add_index(15);
    poly.add_index(12); poly.add_index(15); poly.add_index(16);
    poly.add_index(12); poly.add_index(16); poly.add_index(4);
    poly.add_index(12); poly.add_index(4); poly.add_index(5);
    poly.add_index(12); poly.add_index(5); poly.add_index(11);
    assert(poly.is_triangle_list());
    asset.add_polygon(poly);
    let mut poly = AssetPolygon::new((
        Decimal::new(1607843137254902, 16),
        Decimal::new(1411764705882353, 16),
        Decimal::new(196078431372549, 16),
        Decimal::new(1, 0),
    ));
    poly.add_vertex((Decimal::new(-60000001, 15), Decimal::new(9921870000000013, 15)));
    poly.add_vertex((Decimal::new(17197915, 7), Decimal::new(9524999999999977, 15)));
    poly.add_vertex((Decimal::new(18520832, 7), Decimal::new(8598950000000002, 15)));
    poly.add_vertex((Decimal::new(-60000001, 15), Decimal::new(846665999999999, 14)));
    poly.add_vertex((Decimal::new(-18520834, 7), Decimal::new(8598950000000002, 15)));
    poly.add_vertex((Decimal::new(-15875001, 7), Decimal::new(9524999999999977, 15)));
    poly.add_index(0); poly.add_index(5); poly.add_index(4);
    poly.add_index(0); poly.add_index(4); poly.add_index(3);
    poly.add_index(0); poly.add_index(3); poly.add_index(2);
    poly.add_index(0); poly.add_index(2); poly.add_index(1);
    assert(poly.is_triangle_list());
    asset.add_polygon(poly);
    asset
}

/// A fire hydrant, variant 1.
fn hydrant_1() -> (a: Asset)
    ensures
        asset_well_formed(a),
        a.polys().len() == 1,
{
    let mut asset = Asset::new();
    let mut poly = AssetPolygon::new((
        Decimal::new(5098039215686274, 16),
        Decimal::new(3333333333333333, 16),
        Decimal::new(196078431372549, 16),
        Decimal::new(1, 0),
    ));
    poly.add_vertex((Decimal::new(13229166, 7), Decimal::new(0, 1)));
    poly.add_vertex((Decimal::new(13229166, 7), Decimal::new(5291700000000219, 16)));
    poly.add_vertex((Decimal::new(7937500200000001, 16), Decimal::new(5291700000000219, 16)));
    poly.add_vertex((Decimal::new(7937500200000001, 16), Decimal::new(18520800000000008, 16)));
    poly.add_vertex((Decimal::new(10583333000000001, 16), Decimal::new(2116669999999999, 15)));
    poly.add_vertex((Decimal::new(10583333000000001, 16), Decimal::new(2910419999999988, 15)));
    poly.add_vertex((Decimal::new(7937500200000002, 16), Decimal::new(31750000000000114, 16)));
    poly.add_vertex((Decimal::new(7937501000000001, 16), Decimal::new(4101040000000012, 15)));
    poly.add_vertex((Decimal::new(10583334000000002, 16), Decimal::new(4101040000000012, 15)));
    poly.add_vertex((Decimal::new(10583333000000001, 16), Decimal::new(449790999999999, 14)));
    poly.add_vertex((Decimal::new(7937500200000002, 16), Decimal::new(449790999999999, 14)));
    poly.add_vertex((Decimal::new(7937500500000002, 16), Decimal::new(4762490000000014, 15)));
    poly.add_vertex((Decimal::new(6614584100000003, 16), Decimal::new(5027080000000012, 15)));
    poly.add_vertex((Decimal::new(2645833400000003, 16), Decimal::new(5291660000000036, 15)));
    poly.add_vertex((Decimal::new(2645833400000003, 16), Decimal::new(5556250000000034, 15)));
    poly.add_vertex((Decimal::new(-2645832299999997, 16), Decimal::new(5556250000000034, 15)));
    poly.add_vertex((Decimal::new(-2645832299999997, 16), Decimal::new(5291660000000036, 15)));
    poly.add_vertex((Decimal::new(-6614582299999997, 16), Decimal::new(5027080000000012, 15)));
    poly.add_vertex((Decimal::new(-7937499299999997, 16), Decimal::new(4762490000000014, 15)));
    poly.add_vertex((Decimal::new(-7937499299999997, 16), Decimal::new(449790999999999, 14)));
    poly.add_vertex((Decimal::new(-10583332, 7), Decimal::new(449790999999999, 14)));
    poly.add_vertex((Decimal::new(-10583331, 7), Decimal::new(4101040000000012, 15)));
    poly.add_vertex((Decimal::new(-79374983, 8), Decimal::new(4101040000000012, 15)));
    poly.add_vertex((Decimal::new(-7937499299999999, 16), Decimal::new(31750000000000114, 16)));
    poly.add_vertex((Decimal::new(-10583331999999999, 16), Decimal::new(2910419999999988, 15)));
    poly.add_vertex((Decimal::new(-10583331999999999, 16), Decimal::new(2116669999999999, 15)));
    poly.add_vertex((Decimal::new(-7937499299999999, 16), Decimal::new(18520800000000008, 16)));
    poly.add_vertex((Decimal::new(-7937499299999999, 16), Decimal::new(5291700000000219, 16)));
    poly.add_vertex((Decimal::new(-13229165, 7), Decimal::new(5291700000000219, 16)));
    poly.add_vertex((Decimal::new(-13229165, 7), Decimal::new(0, 1)));
    poly.add_index(29); poly.add_index(0); poly.add_index(1);
    poly.add_index(29); poly.add_index(1); poly.add_index(2);
    poly.add_index(3); poly.add_index(4); poly.add_index(5);
    poly.add_index(3); poly.add_index(5); poly.add_index(6);
    poly.add_index(7); poly.add_index(8); poly.add_index(9);
    poly.add_index(7); poly.add_index(9); poly.add_index(10);
    poly.add_index(10); poly.add_index(11); poly.add_index(12);
    poly.add_index(10); poly.add_index(12); poly.add_index(13);
    poly.add_index(13); poly.add_index(14); poly.add_index(15);
    poly.add_index(13); poly.add_index(15); poly.add_index(16);
    poly.add_index(16); poly.add_index(17); poly.add_index(18);
    poly.add_index(16); poly.add_index(18); poly.add_index(19);
    poly.add_index(19); poly.add_index(20); poly.add_index(21);
    poly.add_index(19); poly.add_index(21); poly.add_index(22);
    poly.add_index(23); poly.add_index(24); poly.add_index(25);
    poly.add_index(23); poly.add_index(25); poly.add_index(26);
    poly.add_index(27); poly.add_index(28); poly.add_index(29);
    poly.add_index(29); poly.add_index(2); poly.add_index(3);
    poly.add_index(6); poly.add_index(7); poly.add_index(10);
    poly.add_index(6); poly.add_index(10); poly.add_index(13);
    poly.add_index(6); poly.add_index(13); poly.add_index(16);
    poly.add_index(6); poly.add_index(16); poly.add_index(19);
    poly.add_index(6); poly.add_index(19); poly.add_index(22);
    poly.add_index(22); poly.add_index(23); poly.add_index(26);
    poly.add_index(27); poly.add_index(29); poly.add_index(3);
    poly.add_index(3); poly.add_index(6); poly.add_index(22);
    poly.add_index(3); poly.add_index(22); poly.add_index(26);
    poly.add_index(3); poly.add_index(26); poly.add_index(27);
    assert(poly.is_triangle_list());
    asset.add_polygon(poly);
    asset
}

/// A street lamp, variant 2.
#[verifier::rlimit(100)]
fn lamp_2() -> (a: Asset)
    ensures
        asset_well_formed(a),
        a.polys().len() == 1,
{
    let mut asset = Asset::new();
    let mut poly = AssetPolygon::new((
        Decimal::new(2823529411764706, 16),
        Decimal::new(5294117647058824, 16),
        Decimal::new(392156862745098, 16),
        Decimal::new(1, 0),
    ));
    poly.add_vertex((Decimal::new(79375002, 8), Decimal::new(0, 1)));
    poly.add_vertex((Decimal::new(79375002, 8), Decimal::new(5291700000000219, 16)));
    poly.add_vertex((Decimal::new(10583333, 7), Decimal::new(13229200000000105, 16)));
    poly.add_vertex((Decimal::new(18520834, 7), Decimal::new(23812500000000227, 16)));
    poly.add_vertex((Decimal::new(26458333, 7), Decimal::new(26458300000000463, 16)));
    poly.add_vertex((Decimal::new(39687499, 7), Decimal::new(29104200000000446, 16)));
    poly.add_vertex((Decimal::new(39687499, 7), Decimal::new(3439580000000035, 15)));
    poly.add_vertex((Decimal::new(42333333, 7), Decimal::new(3439580000000035, 15)));
    poly.add_vertex((Decimal::new(42333333, 7), Decimal::new(3968750000000057, 15)));
    poly.add_vertex((Decimal::new(50270833, 7), Decimal::new(423333000000008, 14)));
    poly.add_vertex((Decimal::new(58208333, 7), Decimal::new(767292000000009, 14)));
    poly.add_vertex((Decimal::new(37041666, 7), Decimal::new(8466670000000079, 15)));
    poly.add_vertex((Decimal::new(34395833000000002, 16), Decimal::new(9260420000000067, 15)));
    poly.add_vertex((Decimal::new(31750000000000003, 16), Decimal::new(8466670000000079, 15)));
    poly.add_vertex((Decimal::new(10583333000000001, 16), Decimal::new(767292000000009, 14)));
    poly.add_vertex((Decimal::new(18520834000000002, 16), Decimal::new(423333000000008, 14)));
    poly.add_vertex((Decimal::new(26458333, 7), Decimal::new(3968750000000057, 15)));
    poly.add_vertex((Decimal::new(26458333, 7), Decimal::new(3439580000000035, 15)));
    poly.add_vertex((Decimal::new(29104166, 7), Decimal::new(3439580000000035, 15)));
    poly.add_vertex((Decimal::new(29104166, 7), Decimal::new(31750000000000114, 16)));
    poly.add_vertex((Decimal::new(13229167, 7), Decimal::new(2910419999999988, 15)));
    poly.add_vertex((Decimal::new(5291666599999999, 16), Decimal::new(2381249999999966, 15)));
    poly.add_vertex((Decimal::new(0, 1), Decimal::new(15874999999999773, 16)));
    poly.add_vertex((Decimal::new(-52916666, 8), Decimal::new(23812500000000227, 16)));
    poly.add_vertex((Decimal::new(-13229167, 7), Decimal::new(2910419999999988, 15)));
    poly.add_vertex((Decimal::new(-29104166, 7), Decimal::new(31750000000000114, 16)));
    poly.add_vertex((Decimal::new(-29104166, 7), Decimal::new(3439580000000035, 15)));
    poly.add_vertex((Decimal::new(-26458333, 7), Decimal::new(3439580000000035, 15)));
    poly.add_vertex((Decimal::new(-26458333, 7), Decimal::new(3968750000000057, 15)));
    poly.add_vertex((Decimal::new(-18520834, 7), Decimal::new(4233330000000024, 15)));
    poly.add_vertex((Decimal::new(-10583333, 7), Decimal::new(7672919999999976, 15)));
    poly.add_vertex((Decimal::new(-3175, 3), Decimal::new(8466670000000022, 15)));
    poly.add_vertex((Decimal::new(-34395833, 7), Decimal::new(926042000000001, 14)));
    poly.add_vertex((Decimal::new(-37041665999999998, 16), Decimal::new(8466670000000022, 15)));
    poly.add_vertex((Decimal::new(-58208333, 7), Decimal::new(7672920000000033, 15)));
    poly.add_vertex((Decimal::new(-50270833, 7), Decimal::new(4233330000000024, 15)));
    poly.add_vertex((Decimal::new(-42333333, 7), Decimal::new(396875, 5)));
    poly.add_vertex((Decimal::new(-42333333, 7), Decimal::new(3439579999999978, 15)));
    poly.add_vertex((Decimal::new(-396875, 5), Decimal::new(3439579999999978, 15)));
    poly.add_vertex((Decimal::new(-396875, 5), Decimal::new(2910419999999988, 15)));
    poly.add_vertex((Decimal::new(-26458333, 7), Decimal::new(26458299999999895, 16)));
    poly.add_vertex((Decimal::new(-18520834000000002, 16), Decimal::new(2381249999999966, 15)));
    poly.add_vertex((Decimal::new(-10583333000000001, 16), Decimal::new(13229199999999537, 16)));
    poly.add_vertex((Decimal::new(-7937500200000002, 16), Decimal::new(5291699999999651, 16)));
    poly.add_vertex((Decimal::new(-7937500200000002, 16), Decimal::new(0, 1)));
    poly.add_index(44); poly.add_index(0); poly.add_index(1);
    poly.add_index(4); poly.add_index(5); poly.add_index(6);
    poly.add_index(6); poly.add_index(7); poly.add_index(8);
    poly.add_index(8); poly.add_index(9); poly.add_index(10);
    poly.add_index(8); poly.add_index(10); poly.add_index(11);
    poly.add_index(11); poly.add_index(12); poly.add_index(13);
    poly.add_index(13); poly.add_index(14); poly.add_index(15);
    poly.add_index(13); poly.add_index(15); poly.add_index(16);
    poly.add_index(16); poly.add_index(17); poly.add_index(18);
    poly.add_index(19); poly.add_index(20); poly.add_index(21);
    poly.add_index(19); poly.add_index(21); poly.add_index(22);
    poly.add_index(22); poly.add_index(23); poly.add_index(24);
    poly.add_index(22); poly.add_index(24); poly.add_index(25);
    poly.add_index(26); poly.add_index(27); poly.add_index(28);
    poly.add_index(28); poly.add_index(29); poly.add_index(30);
    poly.add_index(28); poly.add_index(30); poly.add_index(31);
    poly.add_index(31); poly.add_index(32); poly.add_index(33);
    poly.add_index(33); poly.add_index(34); poly.add_index(35);
    poly.add_index(33); poly.add_index(35); poly.add_index(36);
    poly.add_index(36); poly.add_index(37); poly.add_index(38);
    poly.add_index(38); poly.add_index(39); poly.add_index(40);
    poly.add_index(43); poly.add_index(44); poly.add_index(1);
    poly.add_index(43); poly.add_index(1); poly.add_index(2);
    poly.add_index(3); poly.add_index(4); poly.add_index(6);
    poly.add_index(3); poly.add_index(6); poly.add_index(8);
    poly.add_index(8); poly.add_index(11); poly.add_index(13);
    poly.add_index(8); poly.add_index(13); poly.add_index(16);
    poly.add_index(8); poly.add_index(16); poly.add_index(18);
    poly.add_index(26); poly.add_index(28); poly.add_index(31);
    poly.add_index(26); poly.add_index(31); poly.add_index(33);
    poly.add_index(26); poly.add_index(33); poly.add_index(36);
    poly.add_index(26); poly.add_index(36); poly.add_index(38);
    poly.add_index(38); poly.add_index(40); poly.add_index(41);
    poly.add_index(42); poly.add_index(43); poly.add_index(2);
    poly.add_index(8); poly.add_index(18); poly.add_index(19);
    poly.add_index(25); poly.add_index(26); poly.add_index(38);
    poly.add_index(3); poly.add_index(8); poly.add_index(19);
    poly.add_index(22); poly.add_index(25); poly.add_index(38);
    poly.add_index(22); poly.add_index(38); poly.add_index(41);
    poly.add_index(3); poly.add_index(19); poly.add_index(22);
    poly.add_index(22); poly.add_index(41); poly.add_index(42);
    poly.add_index(2); poly.add_index(3); poly.add_index(22);
    poly.add_index(22); poly.add_index(42); poly.add_index(2);
    assert(poly.is_triangle_list());
    asset.add_polygon(poly);
    asset
}

/// A street lamp, variant 3.
fn lamp_3() -> (a: Asset)
    ensures
        asset_well_formed(a),
        a.polys().len() == 1,
{
    let mut asset = Asset::new();
    let mut poly = AssetPolygon::new((
        Decimal::new(2823529411764706, 16),
        Decimal::new(5294117647058824, 16),
        Decimal::new(392156862745098, 16),
        Decimal::new(1, 0),
    ));
    poly.add_vertex((Decimal::new(26458333, 8), Decimal::new(0, 1)));
    poly.add_vertex((Decimal::new(26458333, 8), Decimal::new(26458299999999895, 16)));
    poly.add_vertex((Decimal::new(63500002, 7), Decimal::new(26458299999999895, 16)));
    poly.add_vertex((Decimal::new(63500002, 7), Decimal::new(2116669999999999, 15)));
    poly.add_vertex((Decimal::new(26458333, 7), Decimal::new(-5291700000000219, 16)));
    poly.add_vertex((Decimal::new(10583333, 6), Decimal::new(-5291700000000219, 16)));
    poly.add_vertex((Decimal::new(66145835, 7), Decimal::new(2116669999999999, 15)));
    poly.add_vertex((Decimal::new(66145835, 7), Decimal::new(2910419999999988, 15)));
    poly.add_vertex((Decimal::new(-26458333, 8), Decimal::new(2910419999999988, 15)));
    poly.add_vertex((Decimal::new(-26458333, 8), Decimal::new(0, 1)));
    poly.add_index(9); poly.add_index(0); poly.add_index(1);
    poly.add_index(3); poly.add_index(4); poly.add_index(5);
    poly.add_index(3); poly.add_index(5); poly.add_index(6);
    poly.add_index(8); poly.add_index(9); poly.add_index(1);
    poly.add_index(2); poly.add_index(3); poly.add_index(6);
    poly.add_index(2); poly.add_index(6); poly.add_index(7);
    poly.add_index(7); poly.add_index(8); poly.add_index(1);
    poly.add_index(7); poly.add_index(1); poly.add_index(2);
    assert(poly.is_triangle_list());
    asset.add_polygon(poly);
    asset
}

/// A street lamp, variant 1.
fn lamp_1() -> (a: Asset)
    ensures
        asset_well_formed(a),
        a.polys().len() == 1,
{
    let mut asset = Asset::new();
    let mut poly = AssetPolygon::new((
        Decimal::new(2823529411764706, 16),
        Decimal::new(5294117647058824, 16),
        Decimal::new(392156862745098, 16),
        Decimal::new(1, 0),
    ));
    poly.add_vertex((Decimal::new(79375002, 8), Decimal::new(0, 1)));
    poly.add_vertex((Decimal::new(79375002, 8), Decimal::new(5291700000000219, 16)));
    poly.add_vertex((Decimal::new(15875, 4), Decimal::new(7937499999999886, 16)));
    poly.add_vertex((Decimal::new(238125, 5), Decimal::new(4233330000000024, 15)));
    poly.add_vertex((Decimal::new(26458333, 8), Decimal::new(5027080000000012, 15)));
    poly.add_vertex((Decimal::new(0, 1), Decimal::new(5820830000000001, 15)));
    poly.add_vertex((Decimal::new(-26458333, 8), Decimal::new(5027080000000012, 15)));
    poly.add_vertex((Decimal::new(-238125, 5), Decimal::new(4233330000000024, 15)));
    poly.add_vertex((Decimal::new(-15875, 4), Decimal::new(7937499999999886, 16)));
    poly.add_vertex((Decimal::new(-79375002, 8), Decimal::new(5291700000000219, 16)));
    poly.add_vertex((Decimal::new(-79375002, 8), Decimal::new(0, 1)));
    poly.add_index(10); poly.add_index(0); poly.add_index(1);
    poly.add_index(1); poly.add_index(2); poly.add_index(3);
    poly.add_index(1); poly.add_index(3); poly.add_index(4);
    poly.add_index(4); poly.add_index(5); poly.add_index(6);
    poly.add_index(6); poly.add_index(7); poly.add_index(8);
    poly.add_index(6); poly.add_index(8); poly.add_index(9);
    poly.add_index(9); poly.add_index(10); poly.add_index(1);
    poly.add_index(9); poly.add_index(1); poly.add_index(4);
    poly.add_index(9); poly.add_index(4); poly.add_index(6);
    assert(poly.is_triangle_list());
    asset.add_polygon(poly);
    asset
}

/// A lamppost, variant 1.
fn lamppost_1() -> (a: Asset)
    ensures
        asset_well_formed(a),
        a.polys().len() == 1,
{
    let mut asset = Asset::new();
    let mut poly = AssetPolygon::new((
        Decimal::new(2823529411764706, 16),
        Decimal::new(5294117647058824, 16),
        Decimal::new(392156862745098, 16),
        Decimal::new(1, 0),
    ));
    poly.add_vertex((Decimal::new(21166667, 7), Decimal::new(0, 1)));
    poly.add_vertex((Decimal::new(21166667, 7), Decimal::new(5291700000000219, 16)));
    poly.add_vertex((Decimal::new(13229167000000002, 16), Decimal::new(7937500000000455, 16)));
    poly.add_vertex((Decimal::new(7937496400000001, 16), Decimal::new(8995830000000069, 15)));
    poly.add_vertex((Decimal::new(5291666400000001, 16), Decimal::new(8995830000000069, 15)));
    poly.add_vertex((Decimal::new(5291666400000001, 16), Decimal::new(3175, 2)));
    poly.add_vertex((Decimal::new(-5291663599999998, 16), Decimal::new(3175, 2)));
    poly.add_vertex((Decimal::new(-5291663599999998, 16), Decimal::new(8995830000000012, 15)));
    poly.add_vertex((Decimal::new(-7937503599999998, 16), Decimal::new(8995830000000012, 15)));
    poly.add_vertex((Decimal::new(-13229162999999997, 16), Decimal::new(7937499999999886, 16)));
    poly.add_vertex((Decimal::new(-21166662999999994, 16), Decimal::new(5291699999999651, 16)));
    poly.add_index(10); poly.add_index(0); poly.add_index(1);
    poly.add_index(10); poly.add_index(1); poly.add_index(2);
    poly.add_index(2); poly.add_index(3); poly.add_index(4);
    poly.add_index(4); poly.add_index(5); poly.add_index(6);
    poly.add_index(4); poly.add_index(6); poly.add_index(7);
    poly.add_index(7); poly.add_index(8); poly.add_index(9);
    poly.add_index(9); poly.add_index(10); poly.add_index(2);
    poly.add_index(2); poly.add_index(4); poly.add_index(7);
    poly.add_index(2); poly.add_index(7); poly.add_index(9);
    assert(poly.is_triangle_list());
    asset.add_polygon(poly);
    asset
}

} // verus!
