//! Identities of modules and assets, and the module ids derived from them.
use vstd::prelude::*;
use vstd::string::StringExecFns;

verus! {

/// Identity of a module or asset: its path, a disambiguating query, and
/// modifiers that tell derived assets of one source apart.
#[derive(Debug, PartialEq, Eq)]
pub struct AssetIdent {
    pub path: String,
    pub query: String,
    pub modifiers: Vec<String>,
}

pub struct IdentModel {
    pub path: Seq<char>,
    pub query: Seq<char>,
    pub modifiers: Seq<Seq<char>>,
}

pub open spec fn strings_view(v: Seq<String>) -> Seq<Seq<char>> {
    v.map_values(|s: String| s@)
}

impl View for AssetIdent {
    type V = IdentModel;

    open spec fn view(&self) -> IdentModel {
        IdentModel {
            path: self.path@,
            query: self.query@,
            modifiers: strings_view(self.modifiers@),
        }
    }
}

pub open spec fn idents_view(v: Seq<AssetIdent>) -> Seq<IdentModel> {
    v.map_values(|i: AssetIdent| i@)
}

/// The modifier that marks the loader of an asynchronously loaded module.
pub open spec fn loader_modifier() -> Seq<char> {
    seq!['l', 'o', 'a', 'd', 'e', 'r']
}

/// The identity of the loader item for the module `m`.
pub open spec fn loader_ident_of(m: IdentModel) -> IdentModel {
    IdentModel { modifiers: m.modifiers.push(loader_modifier()), ..m }
}

/// The modifiers separated by ", ".
pub open spec fn modifiers_text(ms: Seq<Seq<char>>) -> Seq<char>
    decreases ms.len(),
{
    if ms.len() == 0 {
        Seq::empty()
    } else if ms.len() == 1 {
        ms[0]
    } else {
        modifiers_text(ms.drop_last()) + seq![',', ' '] + ms.last()
    }
}

/// The readable form of an identity: `path?query (m1, m2)`, where the query
/// part and the modifier part are left out when empty.
pub open spec fn ident_text(i: IdentModel) -> Seq<char> {
    let q = if i.query.len() == 0 {
        Seq::empty()
    } else {
        seq!['?'] + i.query
    };
    let m = if i.modifiers.len() == 0 {
        Seq::empty()
    } else {
        seq![' ', '('] + modifiers_text(i.modifiers) + seq![')']
    };
    i.path + q + m
}

/// Identifier of a chunk item, as embedded in chunk output.
#[derive(Debug, PartialEq, Eq)]
pub enum ModuleId {
    Number(u64),
    String(String),
}

pub fn copy_strings(v: &Vec<String>) -> (r: Vec<String>)
    ensures
        strings_view(r@) == strings_view(v@),
{
    let mut r: Vec<String> = Vec::new();
    let mut i: usize = 0;
    while i < v.len()
        invariant
            i <= v@.len(),
            r@.len() == i,
            strings_view(r@) == strings_view(v@.take(i as int)),
        decreases v@.len() - i,
    {
        let ghost old_r = r@;
        r.push(v[i].clone());
        assert(v@.take(i + 1) =~= v@.take(i as int).push(v@[i as int]));
        assert forall|k: int| 0 <= k < i + 1 implies #[trigger] strings_view(r@)[k] == strings_view(
            v@.take(i + 1),
        )[k] by {
            if k < i {
                assert(strings_view(old_r)[k] == strings_view(v@.take(i as int))[k]);
            }
        }
        assert(strings_view(r@) =~= strings_view(v@.take(i + 1)));
        i = i + 1;
    }
    assert(v@.take(i as int) =~= v@);
    r
}

pub fn copy_idents(v: &Vec<AssetIdent>) -> (r: Vec<AssetIdent>)
    ensures
        idents_view(r@) == idents_view(v@),
{
    let mut r: Vec<AssetIdent> = Vec::new();
    let mut i: usize = 0;
    while i < v.len()
        invariant
            i <= v@.len(),
            r@.len() == i,
            idents_view(r@) == idents_view(v@.take(i as int)),
        decreases v@.len() - i,
    {
        let ghost old_r = r@;
        r.push(v[i].duplicate());
        assert(v@.take(i + 1) =~= v@.take(i as int).push(v@[i as int]));
        assert forall|k: int| 0 <= k < i + 1 implies #[trigger] idents_view(r@)[k] == idents_view(
            v@.take(i + 1),
        )[k] by {
            if k < i {
                assert(idents_view(old_r)[k] == idents_view(v@.take(i as int))[k]);
            }
        }
        assert(idents_view(r@) =~= idents_view(v@.take(i + 1)));
        i = i + 1;
    }
    assert(v@.take(i as int) =~= v@);
    r
}

impl AssetIdent {
    /// The identity of the file at `path`, with no query and no modifier.
    pub fn from_path(path: String) -> (r: AssetIdent)
        ensures
            r@ == (IdentModel { path: path@, query: Seq::empty(), modifiers: Seq::empty() }),
    {
        let r = AssetIdent { path, query: String::new(), modifiers: Vec::new() };
        assert(r@.modifiers =~= Seq::<Seq<char>>::empty());
        r
    }

    pub fn duplicate(&self) -> (r: AssetIdent)
        ensures
            r@ == self@,
    {
        AssetIdent {
            path: self.path.clone(),
            query: self.query.clone(),
            modifiers: copy_strings(&self.modifiers),
        }
    }

    /// This identity with `modifier` added after its other modifiers.
    pub fn with_modifier(&self, modifier: &str) -> (r: AssetIdent)
        ensures
            r@ == (IdentModel { modifiers: self@.modifiers.push(modifier@), ..self@ }),
    {
        let mut modifiers = copy_strings(&self.modifiers);
        let ghost before = modifiers@;
        modifiers.push(String::from_str(modifier));
        assert(strings_view(modifiers@) =~= strings_view(before).push(modifier@));
        AssetIdent { path: self.path.clone(), query: self.query.clone(), modifiers }
    }

    /// The readable form of this identity.
    pub fn to_text(&self) -> (r: String)
        ensures
            r@ == ident_text(self@),
    {
        proof {
            reveal_strlit("?");
            reveal_strlit(" (");
            reveal_strlit(", ");
            reveal_strlit(")");
        }
        let mut r = self.path.clone();
        if self.query.as_str().unicode_len() > 0 {
            r.append("?");
            r.append(self.query.as_str());
        }
        let ghost head = r@;
        let n = self.modifiers.len();
        if n > 0 {
            r.append(" (");
            let ghost open = r@;
            let mut i: usize = 0;
            while i < n
                invariant
                    n == self.modifiers@.len(),
                    i <= n,
                    r@ == open + modifiers_text(strings_view(self.modifiers@.take(i as int))),
                decreases n - i,
            {
                let ghost before = r@;
                if i > 0 {
                    proof {
                        reveal_strlit(", ");
                    }
                    r.append(", ");
                    assert(r@ =~= before + seq![',', ' ']);
                }
                let ghost mid = r@;
                r.append(self.modifiers[i].as_str());
                assert(r@ == mid + self.modifiers@[i as int]@);
                let ghost ms = strings_view(self.modifiers@.take(i + 1));
                assert(ms.drop_last() =~= strings_view(self.modifiers@.take(i as int)));
                assert(ms.last() == self.modifiers@[i as int]@);
                if i == 0 {
                    assert(ms[0] == self.modifiers@[0]@);
                    assert(strings_view(self.modifiers@.take(0)) =~= Seq::<Seq<char>>::empty());
                    assert(r@ =~= open + modifiers_text(ms));
                } else {
                    assert(r@ == before + seq![',', ' '] + self.modifiers@[i as int]@);
                    assert(r@ =~= open + modifiers_text(ms));
                }
                i = i + 1;
            }
            r.append(")");
            assert(self.modifiers@.take(n as int) =~= self.modifiers@);
            assert(r@ =~= ident_text(self@));
        } else {
            assert(r@ =~= ident_text(self@));
        }
        r
    }
}

} // verus!
