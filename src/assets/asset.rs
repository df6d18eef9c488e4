//! Authored prop geometry: polygons grouped into assets, looked up by an
//! asset type and a variant name.
use vstd::prelude::*;

verus! {

/// A number as authored, exactly: `mantissa / 10^scale`.
#[derive(Clone, Copy, PartialEq, Eq, Structural, Debug)]
pub struct Decimal {
    pub mantissa: i64,
    pub scale: u32,
}

impl Decimal {
    pub fn new(mantissa: i64, scale: u32) -> (r: Decimal)
        ensures
            r.mantissa == mantissa,
            r.scale == scale,
    {
        Decimal { mantissa, scale }
    }
}

/// A filled polygon: a flat RGBA color, its vertices, and a triangle list
/// of indices into them.
pub struct AssetPolygon {
    pub color: (Decimal, Decimal, Decimal, Decimal),
    pub vertices: Vec<(Decimal, Decimal)>,
    pub drawlist: Vec<u32>,
}

/// The variants of one asset type, by name, in the order they were added.
pub struct AssetType {
    cur_asset: usize,
    assets: Vec<(String, Asset)>,
}

pub struct Asset {
    polygons: Vec<AssetPolygon>,
}

/// All asset types, by name, in the order they were added.
pub struct Assets {
    asset_types: Vec<(String, AssetType)>,
}

/// The value of the last entry named `k`, if any.
pub open spec fn find<V>(entries: Seq<(String, V)>, k: Seq<char>) -> Option<V>
    decreases entries.len(),
{
    if entries.len() == 0 {
        None
    } else if entries.last().0@ == k {
        Some(entries.last().1)
    } else {
        find(entries.drop_last(), k)
    }
}

proof fn lemma_find_push<V>(entries: Seq<(String, V)>, e: (String, V), k: Seq<char>)
    ensures
        find(entries.push(e), k) == if k == e.0@ {
            Some(e.1)
        } else {
            find(entries, k)
        },
{
    assert(entries.push(e).drop_last() =~= entries);
}

proof fn lemma_find_absent<V>(entries: Seq<(String, V)>, k: Seq<char>)
    requires
        forall|j: int| 0 <= j < entries.len() ==> #[trigger] entries[j].0@ != k,
    ensures
        find(entries, k) is None,
    decreases entries.len(),
{
    if entries.len() > 0 {
        let d = entries.drop_last();
        assert forall|j: int| 0 <= j < d.len() implies #[trigger] d[j].0@ != k by {
            assert(d[j] == entries[j]);
        }
        lemma_find_absent(d, k);
    }
}

proof fn lemma_find_update<V>(entries: Seq<(String, V)>, i: int, e: (String, V), k: Seq<char>)
    requires
        0 <= i < entries.len(),
        entries[i].0@ == e.0@,
        forall|j: int| i < j < entries.len() ==> #[trigger] entries[j].0@ != e.0@,
    ensures
        find(entries.update(i, e), k) == if k == e.0@ {
            Some(e.1)
        } else {
            find(entries, k)
        },
    decreases entries.len(),
{
    let u = entries.update(i, e);
    if i < entries.len() - 1 {
        let d = entries.drop_last();
        assert(u.drop_last() =~= d.update(i, e));
        assert forall|j: int| i < j < d.len() implies #[trigger] d[j].0@ != e.0@ by {
            assert(d[j] == entries[j]);
        }
        lemma_find_update(d, i, e, k);
    } else {
        assert(u.drop_last() =~= entries.drop_last());
    }
}

/// The position of the last entry named `k`, if any.
fn last_index_of<V>(entries: &Vec<(String, V)>, k: &String) -> (r: Option<usize>)
    ensures
        r matches Some(i) ==> {
            &&& i < entries@.len()
            &&& entries@[i as int].0@ == k@
            &&& forall|j: int| i < j < entries@.len() ==> #[trigger] entries@[j].0@ != k@
        },
        r is None ==> forall|j: int| 0 <= j < entries@.len() ==> #[trigger] entries@[j].0@ != k@,
{
    let mut n: usize = entries.len();
    while n > 0
        invariant
            n <= entries@.len(),
            forall|j: int| n <= j < entries@.len() ==> #[trigger] entries@[j].0@ != k@,
        decreases n,
    {
        if entries[n - 1].0 == *k {
            return Some(n - 1);
        }
        n = n - 1;
    }
    None
}

impl AssetPolygon {
    /// Every index of the draw list names a vertex.
    pub open spec fn indices_in_range(&self) -> bool {
        forall|i: int| 0 <= i < self.drawlist@.len() ==> #[trigger] self.drawlist@[i] < self.vertices@.len()
    }

    /// A non-empty triangle list over the polygon's own vertices.
    pub open spec fn is_triangle_list(&self) -> bool {
        &&& self.indices_in_range()
        &&& self.drawlist@.len() > 0
        &&& self.drawlist@.len() % 3 == 0
    }

    pub fn new(color: (Decimal, Decimal, Decimal, Decimal)) -> (r: AssetPolygon)
        ensures
            r.color == color,
            r.vertices@.len() == 0,
            r.drawlist@.len() == 0,
            r.indices_in_range(),
    {
        AssetPolygon { color, vertices: Vec::new(), drawlist: Vec::new() }
    }

    pub fn add_vertex(&mut self, vertex: (Decimal, Decimal))
        ensures
            final(self).vertices@ == old(self).vertices@.push(vertex),
            final(self).drawlist@ == old(self).drawlist@,
            final(self).color == old(self).color,
            old(self).indices_in_range() ==> final(self).indices_in_range(),
    {
        self.vertices.push(vertex);
    }

    /// Appends an index to the draw list; the list stays in range exactly
    /// when the index names an existing vertex.
    pub fn add_index(&mut self, index: u32)
        ensures
            final(self).drawlist@ == old(self).drawlist@.push(index),
            final(self).vertices@ == old(self).vertices@,
            final(self).color == old(self).color,
            final(self).indices_in_range() == (old(self).indices_in_range() && index < old(self).vertices@.len()),
    {
        self.drawlist.push(index);
        proof {
            if old(self).indices_in_range() && index < old(self).vertices@.len() {
                assert forall|i: int| 0 <= i < self.drawlist@.len() implies #[trigger] self.drawlist@[i]
                    < self.vertices@.len() by {
                    if i < old(self).drawlist@.len() {
                        assert(self.drawlist@[i] == old(self).drawlist@[i]);
                    }
                }
            }
            if !old(self).indices_in_range() {
                let i = choose|i: int| 0 <= i < old(self).drawlist@.len() && !(old(self).drawlist@[i] < old(self).vertices@.len());
                assert(self.drawlist@[i] == old(self).drawlist@[i]);
            }
            if !(index < old(self).vertices@.len()) {
                assert(self.drawlist@[old(self).drawlist@.len() as int] == index);
            }
        }
    }
}

impl Asset {
    pub closed spec fn polys(&self) -> Seq<AssetPolygon> {
        self.polygons@
    }

    pub fn new() -> (r: Asset)
        ensures
            r.polys().len() == 0,
    {
        Asset { polygons: Vec::new() }
    }

    pub fn num_polies(&self) -> (r: usize)
        ensures
            r == self.polys().len(),
    {
        self.polygons.len()
    }

    pub fn get_poly(&self, index: usize) -> (r: &AssetPolygon)
        requires
            index < self.polys().len(),
        ensures
            *r == self.polys()[index as int],
    {
        &self.polygons[index]
    }

    pub fn add_polygon(&mut self, poly: AssetPolygon)
        ensures
            final(self).polys() == old(self).polys().push(poly),
    {
        self.polygons.push(poly);
    }
}

impl AssetType {
    /// The variant named `k`.
    pub closed spec fn get(&self, k: Seq<char>) -> Option<Asset> {
        find(self.assets@, k)
    }

    pub fn new() -> (r: AssetType)
        ensures
            forall|k: Seq<char>| #[trigger] r.get(k) is None,
    {
        AssetType { cur_asset: 0, assets: Vec::new() }
    }

    /// Stores `asset` under `id`, replacing a variant of that name.
    pub fn add_asset(&mut self, asset: Asset, id: String)
        ensures
            final(self).get(id@) == Some(asset),
            forall|k: Seq<char>| k != id@ ==> #[trigger] final(self).get(k) == old(self).get(k),
    {
        let ghost key = id@;
        match last_index_of(&self.assets, &id) {
            Some(i) => {
                let ghost before = self.assets@;
                self.assets.set(i, (id, asset));
                proof {
                    assert forall|k: Seq<char>| #[trigger] find(self.assets@, k) == if k == key {
                        Some(asset)
                    } else {
                        find(before, k)
                    } by {
                        lemma_find_update(before, i as int, (self.assets@[i as int].0, asset), k);
                    }
                }
            },
            None => {
                let ghost before = self.assets@;
                self.assets.push((id, asset));
                proof {
                    assert forall|k: Seq<char>| #[trigger] find(self.assets@, k) == if k == key {
                        Some(asset)
                    } else {
                        find(before, k)
                    } by {
                        lemma_find_push(before, self.assets@.last(), k);
                        assert(self.assets@ == before.push(self.assets@.last()));
                    }
                }
            },
        }
    }
}

impl Assets {
    /// The asset of type `t` and variant `s`.
    pub closed spec fn asset_at(&self, t: Seq<char>, s: Seq<char>) -> Option<Asset> {
        match find(self.asset_types@, t) {
            Some(at) => at.get(s),
            None => None,
        }
    }

    pub fn new() -> (r: Assets)
        ensures
            forall|t: Seq<char>, s: Seq<char>| #[trigger] r.asset_at(t, s) is None,
    {
        Assets { asset_types: Vec::new() }
    }

    /// Stores `asset` as variant `asset_subtype` of type `asset_type`,
    /// replacing one of that name; other assets are kept.
    pub fn add_asset(&mut self, asset_type: String, asset_subtype: String, asset: Asset)
        ensures
            final(self).asset_at(asset_type@, asset_subtype@) == Some(asset),
            forall|t: Seq<char>, s: Seq<char>|
                !(t == asset_type@ && s == asset_subtype@) ==> #[trigger] final(self).asset_at(t, s)
                    == old(self).asset_at(t, s),
    {
        let ghost tkey = asset_type@;
        let ghost skey = asset_subtype@;
        let ghost before = self.asset_types@;
        match last_index_of(&self.asset_types, &asset_type) {
            Some(i) => {
                let (name, mut entry) = self.asset_types.remove(i);
                let ghost old_entry = entry;
                entry.add_asset(asset, asset_subtype);
                self.asset_types.insert(i, (name, entry));
                proof {
                    assert(self.asset_types@ =~= before.update(i as int, (name, entry)));
                    assert forall|t: Seq<char>| #[trigger] find(self.asset_types@, t) == if t == tkey {
                        Some(entry)
                    } else {
                        find(before, t)
                    } by {
                        lemma_find_update(before, i as int, (name, entry), t);
                    }
                    assert(find(before, tkey) == Some(old_entry)) by {
                        lemma_find_update(before, i as int, before[i as int], tkey);
                        assert(before.update(i as int, before[i as int]) =~= before);
                    }
                }
            },
            None => {
                let mut entry = AssetType::new();
                entry.add_asset(asset, asset_subtype);
                self.asset_types.push((asset_type, entry));
                proof {
                    lemma_find_absent(before, tkey);
                    assert forall|t: Seq<char>| #[trigger] find(self.asset_types@, t) == if t == tkey {
                        Some(entry)
                    } else {
                        find(before, t)
                    } by {
                        lemma_find_push(before, self.asset_types@.last(), t);
                        assert(self.asset_types@ == before.push(self.asset_types@.last()));
                    }
                }
            },
        }
    }

    /// The asset of type `asset_type` and variant `asset_subtype`, if one
    /// was added.
    pub fn get_asset(&self, asset_type: &String, asset_subtype: &String) -> (r: Option<&Asset>)
        ensures
            r matches Some(a) ==> self.asset_at(asset_type@, asset_subtype@) == Some(*a),
            r is None ==> self.asset_at(asset_type@, asset_subtype@) is None,
    {
        match last_index_of(&self.asset_types, asset_type) {
            Some(i) => {
                proof {
                    lemma_find_update(self.asset_types@, i as int, self.asset_types@[i as int], asset_type@);
                    assert(self.asset_types@.update(i as int, self.asset_types@[i as int]) =~= self.asset_types@);
                }
                let entry = &self.asset_types[i].1;
                match last_index_of(&entry.assets, asset_subtype) {
                    Some(j) => {
                        proof {
                            lemma_find_update(entry.assets@, j as int, entry.assets@[j as int], asset_subtype@);
                            assert(entry.assets@.update(j as int, entry.assets@[j as int]) =~= entry.assets@);
                        }
                        Some(&entry.assets[j].1)
                    },
                    None => {
                        proof {
                            lemma_find_absent(entry.assets@, asset_subtype@);
                        }
                        None
                    },
                }
            },
            None => {
                proof {
                    lemma_find_absent(self.asset_types@, asset_type@);
                }
                None
            },
        }
    }
}

} // verus!
