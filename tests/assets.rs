use orbital_core::assets::asset::{Asset, AssetPolygon, Assets, Decimal};
use orbital_core::assets::build_assets;

fn d(m: i64, s: u32) -> Decimal {
    Decimal::new(m, s)
}

fn key(s: &str) -> String {
    s.to_string()
}

#[test]
fn all_props_are_present() {
    let a = build_assets();
    for (t, s, polys) in [
        ("lamp", "1", 1),
        ("lamp", "2", 1),
        ("lamp", "3", 1),
        ("lamp", "4", 1),
        ("lamppost", "1", 1),
        ("wastebin", "1", 2),
        ("hydrant", "1", 1),
    ] {
        let asset = a.get_asset(&key(t), &key(s)).expect("prop missing");
        assert_eq!(asset.num_polies(), polys);
        for i in 0..asset.num_polies() {
            let p = asset.get_poly(i);
            assert!(!p.drawlist.is_empty());
            assert_eq!(p.drawlist.len() % 3, 0);
            assert!(p.drawlist.iter().all(|&k| (k as usize) < p.vertices.len()));
        }
    }
    assert!(a.get_asset(&key("lamp"), &key("5")).is_none());
    assert!(a.get_asset(&key("tree"), &key("1")).is_none());
}

#[test]
fn lamp_geometry_as_authored() {
    let a = build_assets();
    let p = a.get_asset(&key("lamp"), &key("4")).unwrap().get_poly(0);
    assert_eq!(p.color, (d(2823529411764706, 16), d(5294117647058824, 16), d(392156862745098, 16), d(1, 0)));
    assert_eq!(p.vertices.len(), 12);
    assert_eq!(p.vertices[0], (d(-26458333, 8), d(0, 1)));
    assert_eq!(p.vertices[4], (d(9392708500000001, 15), d(6614599999999768, 16)));
    assert_eq!(&p.drawlist[0..6], &[0, 11, 10, 8, 7, 6]);
    assert_eq!(p.drawlist.len(), 30);
}

#[test]
fn lamppost_geometry_as_authored() {
    let a = build_assets();
    let p = a.get_asset(&key("lamppost"), &key("1")).unwrap().get_poly(0);
    assert_eq!(p.vertices.len(), 11);
    assert_eq!(p.vertices[5], (d(5291666400000001, 16), d(3175, 2)));
    assert_eq!(&p.drawlist[p.drawlist.len() - 3..], &[2, 7, 9]);
}

#[test]
fn wastebin_has_small_exponent_vertex() {
    let a = build_assets();
    let p = a.get_asset(&key("wastebin"), &key("1")).unwrap().get_poly(1);
    assert_eq!(p.vertices[0].0, d(-60000001, 15));
}

#[test]
fn add_asset_replaces_same_name() {
    let mut a = Assets::new();
    assert!(a.get_asset(&key("lamp"), &key("1")).is_none());
    let mut first = Asset::new();
    first.add_polygon(AssetPolygon::new((d(1, 0), d(1, 0), d(1, 0), d(1, 0))));
    a.add_asset(key("lamp"), key("1"), first);
    let mut second = Asset::new();
    second.add_polygon(AssetPolygon::new((d(0, 0), d(0, 0), d(0, 0), d(1, 0))));
    second.add_polygon(AssetPolygon::new((d(0, 0), d(0, 0), d(0, 0), d(1, 0))));
    a.add_asset(key("lamp"), key("2"), Asset::new());
    a.add_asset(key("lamp"), key("1"), second);
    assert_eq!(a.get_asset(&key("lamp"), &key("1")).unwrap().num_polies(), 2);
    assert_eq!(a.get_asset(&key("lamp"), &key("2")).unwrap().num_polies(), 0);
}

#[test]
fn polygon_building() {
    let mut p = AssetPolygon::new((d(1, 1), d(2, 1), d(3, 1), d(1, 0)));
    p.add_vertex((d(0, 0), d(1, 0)));
    p.add_vertex((d(1, 0), d(0, 0)));
    p.add_index(1);
    p.add_index(0);
    assert_eq!(p.vertices, vec![(d(0, 0), d(1, 0)), (d(1, 0), d(0, 0))]);
    assert_eq!(p.drawlist, vec![1, 0]);
}
