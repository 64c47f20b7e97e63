//! Visitors that read names, paths and types out of a parsed statement or file.
//!
//! Each visitor starts empty and is driven over the statement in the order in
//! which the Rust syntax walker reaches the nodes it looks at.
use vstd::prelude::*;

use crate::syntax_tree::{
    path_names, path_to_vec, type_path, type_to_path, ArgNode, FieldNode, FnDeclNode, ImplItemNode,
    PatNode, TraitItemNode, ItemKindNode, ItemNode, StmtNode,
    TyNode, VariantDataNode, Variant, ViewPath,
};

verus! {

/// The name and aliased type of a `type` item.
pub struct TypeVisitor {
    pub name: Option<String>,
    pub type_: Vec<String>,
}

impl View for TypeVisitor {
    type V = (Option<Seq<char>>, Seq<Seq<char>>);

    open spec fn view(&self) -> Self::V {
        (self.name.deep_view(), self.type_.deep_view())
    }
}

/// What visiting `item` makes of a type visitor in state `st`.
pub open spec fn type_visit_item(st: (Option<Seq<char>>, Seq<Seq<char>>), item: ItemNode)
    -> (Option<Seq<char>>, Seq<Seq<char>>)
{
    match item.node {
        ItemKindNode::TyAlias(t) => (Some(item.ident@), type_path(t)),
        _ => st,
    }
}

impl TypeVisitor {
    /// An empty visitor.
    pub fn new() -> (v: TypeVisitor)
        ensures
            v@ == (None::<Seq<char>>, Seq::<Seq<char>>::empty()),
    {
        let v = TypeVisitor { name: None, type_: Vec::new() };
        assert(v.type_.deep_view() =~= Seq::<Seq<char>>::empty());
        v
    }

    /// Records the name and the named type of a `type` item.
    pub fn visit_item(&mut self, item: &ItemNode)
        ensures
            final(self)@ == type_visit_item(old(self)@, *item),
    {
        match &item.node {
            ItemKindNode::TyAlias(ty) => {
                self.name = Some(item.ident.clone());
                self.type_ = type_to_path(ty);
            },
            _ => {},
        }
    }
}

/// The name of a trait item.
pub struct TraitVisitor {
    pub name: Option<String>,
}

impl View for TraitVisitor {
    type V = Option<Seq<char>>;

    open spec fn view(&self) -> Self::V {
        self.name.deep_view()
    }
}

/// What visiting `item` makes of a trait visitor in state `st`.
pub open spec fn trait_visit_item(st: Option<Seq<char>>, item: ItemNode) -> Option<Seq<char>> {
    match item.node {
        ItemKindNode::Trait(_) => Some(item.ident@),
        _ => st,
    }
}

impl TraitVisitor {
    /// An empty visitor.
    pub fn new() -> (v: TraitVisitor)
        ensures
            v@ == None::<Seq<char>>,
    {
        TraitVisitor { name: None }
    }

    /// Records the name of a trait item.
    pub fn visit_item(&mut self, item: &ItemNode)
        ensures
            final(self)@ == trait_visit_item(old(self)@, *item),
    {
        match &item.node {
            ItemKindNode::Trait(_) => {
                self.name = Some(item.ident.clone());
            },
            _ => {},
        }
    }
}

/// The implemented type and trait of an impl item.
pub struct ImplVisitor {
    pub name_path: Vec<String>,
    pub trait_path: Vec<String>,
}

impl View for ImplVisitor {
    type V = (Seq<Seq<char>>, Seq<Seq<char>>);

    open spec fn view(&self) -> Self::V {
        (self.name_path.deep_view(), self.trait_path.deep_view())
    }
}

/// What visiting `item` makes of an impl visitor in state `st`: the path of the
/// implementing type (a reference `&T` counts as `T`) and the path of the trait,
/// each only where there is one.
pub open spec fn impl_visit_item(st: (Seq<Seq<char>>, Seq<Seq<char>>), item: ItemNode)
    -> (Seq<Seq<char>>, Seq<Seq<char>>)
{
    match item.node {
        ItemKindNode::Impl(tr, ty, _) => {
            let name_path = match ty {
                TyNode::Path(p) => path_names(p),
                TyNode::Rptr(inner) => match *inner {
                    TyNode::Path(p) => path_names(p),
                    _ => st.0,
                },
                TyNode::Other => st.0,
            };
            let trait_path = match tr {
                Some(p) => path_names(p),
                None => st.1,
            };
            (name_path, trait_path)
        },
        _ => st,
    }
}

impl ImplVisitor {
    /// An empty visitor.
    pub fn new() -> (v: ImplVisitor)
        ensures
            v@ == (Seq::<Seq<char>>::empty(), Seq::<Seq<char>>::empty()),
    {
        let v = ImplVisitor { name_path: Vec::new(), trait_path: Vec::new() };
        assert(v.name_path.deep_view() =~= Seq::<Seq<char>>::empty());
        assert(v.trait_path.deep_view() =~= Seq::<Seq<char>>::empty());
        v
    }

    /// Records the implementing type and the implemented trait of an impl item.
    pub fn visit_item(&mut self, item: &ItemNode)
        ensures
            final(self)@ == impl_visit_item(old(self)@, *item),
    {
        match &item.node {
            ItemKindNode::Impl(tr, ty, _) => {
                match ty {
                    TyNode::Path(p) => {
                        self.name_path = path_to_vec(p);
                    },
                    TyNode::Rptr(inner) => match &**inner {
                        TyNode::Path(p) => {
                            self.name_path = path_to_vec(p);
                        },
                        _ => {},
                    },
                    TyNode::Other => {},
                }
                match tr {
                    Some(p) => {
                        self.trait_path = path_to_vec(p);
                    },
                    None => {},
                }
            },
            _ => {},
        }
    }
}

/// The name of a module item.
pub struct ModVisitor {
    pub name: Option<String>,
}

impl View for ModVisitor {
    type V = Option<Seq<char>>;

    open spec fn view(&self) -> Self::V {
        self.name.deep_view()
    }
}

/// What visiting `item` makes of a module visitor in state `st`.
pub open spec fn mod_visit_item(st: Option<Seq<char>>, item: ItemNode) -> Option<Seq<char>> {
    match item.node {
        ItemKindNode::Mod(_) => Some(item.ident@),
        _ => st,
    }
}

impl ModVisitor {
    /// An empty visitor.
    pub fn new() -> (v: ModVisitor)
        ensures
            v@ == None::<Seq<char>>,
    {
        ModVisitor { name: None }
    }

    /// Records the name of a module item.
    pub fn visit_item(&mut self, item: &ItemNode)
        ensures
            final(self)@ == mod_visit_item(old(self)@, *item),
    {
        match &item.node {
            ItemKindNode::Mod(_) => {
                self.name = Some(item.ident.clone());
            },
            _ => {},
        }
    }
}

/// The name of an enum item and the name and start offset of each variant.
pub struct EnumVisitor {
    pub name: String,
    pub values: Vec<(String, usize)>,
}

impl View for EnumVisitor {
    type V = (Seq<char>, Seq<(Seq<char>, usize)>);

    open spec fn view(&self) -> Self::V {
        (self.name@, self.values.deep_view())
    }
}

/// What visiting `item` makes of an enum visitor in state `st`: the enum's name,
/// and its variants added after those already recorded.
pub open spec fn enum_visit_item(st: (Seq<char>, Seq<(Seq<char>, usize)>), item: ItemNode)
    -> (Seq<char>, Seq<(Seq<char>, usize)>)
{
    match item.node {
        ItemKindNode::Enum(vs) => (
            item.ident@,
            st.1 + Seq::new(vs@.len(), |i: int| (vs@[i].name@, vs@[i].lo)),
        ),
        _ => st,
    }
}

impl EnumVisitor {
    /// An empty visitor.
    pub fn new() -> (v: EnumVisitor)
        ensures
            v@ == (Seq::<char>::empty(), Seq::<(Seq<char>, usize)>::empty()),
    {
        let v = EnumVisitor { name: String::new(), values: Vec::new() };
        assert(v.values.deep_view() =~= Seq::<(Seq<char>, usize)>::empty());
        v
    }

    /// Records the name of an enum item and its variants.
    pub fn visit_item(&mut self, i: &ItemNode)
        ensures
            final(self)@ == enum_visit_item(old(self)@, *i),
    {
        match &i.node {
            ItemKindNode::Enum(variants) => {
                self.name = i.ident.clone();
                let ghost start = self.values@;
                let n = variants.len();
                for k in 0..n
                    invariant
                        n == variants@.len(),
                        self.name@ == i.ident@,
                        self.values@.len() == start.len() + k,
                        forall|j: int| 0 <= j < start.len() ==> #[trigger] self.values@[j] == start[j],
                        forall|j: int|
                            0 <= j < k ==> (#[trigger] self.values@[start.len() + j]).0@
                                == variants@[j].name@ && self.values@[start.len() + j].1
                                == variants@[j].lo,
                {
                    self.values.push((variants[k].name.clone(), variants[k].lo));
                }
                proof {
                    let vs = variants@;
                    let expect = old(self)@.1 + Seq::new(vs.len(), |j: int| (vs[j].name@, vs[j].lo));
                    assert forall|j: int| 0 <= j < expect.len() implies #[trigger] self.values.deep_view()[j] == expect[j] by {
                        if j >= start.len() {
                            assert(self.values@[start.len() + (j - start.len())] == self.values@[j]);
                        }
                    }
                    assert(self.values.deep_view() =~= expect);
                }
            },
            _ => {},
        }
    }
}

/// The fields of every struct definition in a statement: name, start offset
/// and the path of the type (see `type_path`) of each named field.
pub struct StructVisitor {
    pub fields: Vec<(String, usize, Vec<String>)>,
}

impl View for StructVisitor {
    type V = Seq<(Seq<char>, usize, Seq<Seq<char>>)>;

    open spec fn view(&self) -> Self::V {
        self.fields.deep_view()
    }
}

/// The entries of the named fields among `fs`, in order.
pub open spec fn field_entries(fs: Seq<FieldNode>) -> Seq<(Seq<char>, usize, Seq<Seq<char>>)>
    decreases fs.len(),
{
    if fs.len() == 0 {
        Seq::empty()
    } else {
        let f = fs.last();
        field_entries(fs.drop_last()) + match f.ident {
            Some(n) => seq![(n@, f.lo, type_path(f.ty))],
            None => Seq::empty(),
        }
    }
}

/// The entries of the named fields of a struct or variant definition.
pub open spec fn variant_data_entries(d: VariantDataNode) -> Seq<(Seq<char>, usize, Seq<Seq<char>>)> {
    match d {
        VariantDataNode::Struct(fs) => field_entries(fs@),
        VariantDataNode::Tuple(fs) => field_entries(fs@),
        VariantDataNode::Unit => Seq::empty(),
    }
}

/// The entries of the named fields of all variants, in order.
pub open spec fn variants_entries(vs: Seq<Variant>) -> Seq<(Seq<char>, usize, Seq<Seq<char>>)>
    decreases vs.len(),
{
    if vs.len() == 0 {
        Seq::empty()
    } else {
        variants_entries(vs.drop_last()) + variant_data_entries(vs.last().data)
    }
}

/// The entries of the named fields of every struct and enum variant that a walk
/// over `items` (descending into modules) reaches, in walk order.
pub open spec fn items_struct_entries(items: Seq<ItemNode>) -> Seq<(Seq<char>, usize, Seq<Seq<char>>)>
    decreases items,
{
    if items.len() == 0 {
        Seq::empty()
    } else {
        let last = items.last();
        items_struct_entries(items.drop_last()) + match last.node {
            ItemKindNode::Struct(d) => variant_data_entries(d),
            ItemKindNode::Enum(vs) => variants_entries(vs@),
            ItemKindNode::Mod(inner) => items_struct_entries(inner@),
            _ => Seq::empty(),
        }
    }
}

impl StructVisitor {
    /// An empty visitor.
    pub fn new() -> (v: StructVisitor)
        ensures
            v@ == Seq::<(Seq<char>, usize, Seq<Seq<char>>)>::empty(),
    {
        let v = StructVisitor { fields: Vec::new() };
        assert(v.fields.deep_view() =~= Seq::<(Seq<char>, usize, Seq<Seq<char>>)>::empty());
        v
    }

    /// Records the named fields of one struct or variant definition.
    pub fn visit_struct_def(&mut self, struct_definition: &Vec<FieldNode>)
        ensures
            final(self)@ == old(self)@ + field_entries(struct_definition@),
    {
        let n = struct_definition.len();
        for k in 0..n
            invariant
                n == struct_definition@.len(),
                self@ == old(self)@ + field_entries(struct_definition@.take(k as int)),
        {
            let ghost before = self@;
            let field = &struct_definition[k];
            match &field.ident {
                Some(name) => {
                    let typepath = type_to_path(&field.ty);
                    self.fields.push((name.clone(), field.lo, typepath));
                },
                None => {},
            }
            proof {
                let t1 = struct_definition@.take(k + 1);
                assert(t1.drop_last() =~= struct_definition@.take(k as int));
                assert(t1.last() == struct_definition@[k as int]);
                assert(self@ =~= before + match field.ident {
                    Some(nm) => seq![(nm@, field.lo, type_path(field.ty))],
                    None => Seq::empty(),
                });
            }
        }
        assert(struct_definition@.take(n as int) =~= struct_definition@);
    }

    fn visit_variant_data(&mut self, d: &VariantDataNode)
        ensures
            final(self)@ == old(self)@ + variant_data_entries(*d),
    {
        match d {
            VariantDataNode::Struct(fs) => self.visit_struct_def(fs),
            VariantDataNode::Tuple(fs) => self.visit_struct_def(fs),
            VariantDataNode::Unit => {
                assert(self@ =~= old(self)@ + Seq::empty());
            },
        }
    }

    /// Walks over `items` in order, descending into modules, and records the
    /// fields of each struct definition and enum variant.
    pub fn walk_items(&mut self, items: &Vec<ItemNode>)
        ensures
            final(self)@ == old(self)@ + items_struct_entries(items@),
        decreases items@,
    {
        let n = items.len();
        for k in 0..n
            invariant
                n == items@.len(),
                self@ == old(self)@ + items_struct_entries(items@.take(k as int)),
        {
            let ghost before = self@;
            let item = &items[k];
            match &item.node {
                ItemKindNode::Struct(d) => self.visit_variant_data(d),
                ItemKindNode::Enum(vs) => {
                    let m = vs.len();
                    for j in 0..m
                        invariant
                            m == vs@.len(),
                            self@ == before + variants_entries(vs@.take(j as int)),
                    {
                        let ghost b2 = self@;
                        self.visit_variant_data(&vs[j].data);
                        proof {
                            let t1 = vs@.take(j + 1);
                            assert(t1.drop_last() =~= vs@.take(j as int));
                            assert(self@ =~= b2 + variant_data_entries(vs@[j as int].data));
                        }
                    }
                    assert(vs@.take(m as int) =~= vs@);
                },
                ItemKindNode::Mod(inner) => {
                    assert(decreases_to!(items@ => inner@));
                    self.walk_items(inner);
                },
                _ => {},
            }
            proof {
                let t1 = items@.take(k + 1);
                assert(t1.drop_last() =~= items@.take(k as int));
                assert(t1.last() == items@[k as int]);
                assert(self@ =~= before + match items@[k as int].node {
                    ItemKindNode::Struct(d) => variant_data_entries(d),
                    ItemKindNode::Enum(vs) => variants_entries(vs@),
                    ItemKindNode::Mod(inner) => items_struct_entries(inner@),
                    _ => Seq::empty(),
                });
            }
        }
        assert(items@.take(n as int) =~= items@);
    }
}

/// The paths that `use` and `extern crate` items bring in, and the last name
/// that one of them binds.
pub struct ViewItemVisitor {
    pub ident: Option<String>,
    pub paths: Vec<Vec<String>>,
}

impl View for ViewItemVisitor {
    type V = (Option<Seq<char>>, Seq<Seq<Seq<char>>>);

    open spec fn view(&self) -> Self::V {
        (self.ident.deep_view(), self.paths.deep_view())
    }
}

/// The paths of a braced `use` list with prefix `prefix`, in order, leaving out
/// the `self` entries.
pub open spec fn list_paths(prefix: Seq<Seq<char>>, names: Seq<String>) -> Seq<Seq<Seq<char>>>
    decreases names.len(),
{
    if names.len() == 0 {
        Seq::empty()
    } else {
        let n = names.last();
        list_paths(prefix, names.drop_last()) + if n@ == "self"@ {
            Seq::empty()
        } else {
            seq![prefix.push(n@)]
        }
    }
}

/// What visiting `item` makes of a view-item visitor in state `st` (modules are
/// not entered here).
pub open spec fn view_item_visit(st: (Option<Seq<char>>, Seq<Seq<Seq<char>>>), item: ItemNode)
    -> (Option<Seq<char>>, Seq<Seq<Seq<char>>>)
{
    match item.node {
        ItemKindNode::Use(vp) => match vp {
            ViewPath::Simple(ident, path) => (Some(ident@), st.1.push(path_names(path))),
            ViewPath::List(prefix, names) => (st.0, st.1 + list_paths(path_names(prefix), names@)),
            ViewPath::Glob(_) => st,
        },
        ItemKindNode::ExternCrate(orig) => (
            Some(item.ident@),
            match orig {
                Some(o) => st.1.push(seq![o@]),
                None => st.1,
            },
        ),
        _ => st,
    }
}

/// What a walk over `items` (descending into modules) makes of a view-item
/// visitor in state `st`.
pub open spec fn view_items_walk(st: (Option<Seq<char>>, Seq<Seq<Seq<char>>>), items: Seq<ItemNode>)
    -> (Option<Seq<char>>, Seq<Seq<Seq<char>>>)
    decreases items,
{
    if items.len() == 0 {
        st
    } else {
        let prev = view_items_walk(st, items.drop_last());
        let last = items.last();
        match last.node {
            ItemKindNode::Mod(inner) => view_items_walk(prev, inner@),
            _ => view_item_visit(prev, last),
        }
    }
}

impl ViewItemVisitor {
    /// An empty visitor.
    pub fn new() -> (v: ViewItemVisitor)
        ensures
            v@ == (None::<Seq<char>>, Seq::<Seq<Seq<char>>>::empty()),
    {
        let v = ViewItemVisitor { ident: None, paths: Vec::new() };
        assert(v.paths.deep_view() =~= Seq::<Seq<Seq<char>>>::empty());
        v
    }

    /// Records what a `use` or `extern crate` item brings in.
    pub fn visit_view_item(&mut self, i: &ItemNode)
        ensures
            final(self)@ == view_item_visit(old(self)@, *i),
    {
        match &i.node {
            ItemKindNode::Use(vp) => match vp {
                ViewPath::Simple(ident, path) => {
                    let v = path_to_vec(path);
                    self.paths.push(v);
                    self.ident = Some(ident.clone());
                    assert(self.paths.deep_view() =~= old(self).paths.deep_view().push(path_names(*path)));
                },
                ViewPath::List(pth, paths) => {
                    let v = path_to_vec(pth);
                    let self_kw = "self".to_string();
                    let n = paths.len();
                    for k in 0..n
                        invariant
                            n == paths@.len(),
                            v.deep_view() == path_names(*pth),
                            self_kw@ == "self"@,
                            self.ident == old(self).ident,
                            self.paths.deep_view() == old(self).paths.deep_view() + list_paths(
                                path_names(*pth),
                                paths@.take(k as int),
                            ),
                    {
                        let ghost before = self.paths.deep_view();
                        let name = &paths[k];
                        if *name != self_kw {
                            let mut vv = copy_strings(&v);
                            vv.push(name.clone());
                            assert(vv.deep_view() =~= path_names(*pth).push(name@));
                            self.paths.push(vv);
                            assert(self.paths.deep_view() =~= before.push(path_names(*pth).push(name@)));
                        }
                        proof {
                            let t1 = paths@.take(k + 1);
                            assert(t1.drop_last() =~= paths@.take(k as int));
                            assert(t1.last() == paths@[k as int]);
                            assert(self.paths.deep_view() =~= before + if name@ == "self"@ {
                                Seq::empty()
                            } else {
                                seq![path_names(*pth).push(name@)]
                            });
                        }
                    }
                    assert(paths@.take(n as int) =~= paths@);
                },
                ViewPath::Glob(_) => {},
            },
            ItemKindNode::ExternCrate(orig) => {
                self.ident = Some(i.ident.clone());
                match orig {
                    Some(o) => {
                        let mut v: Vec<String> = Vec::new();
                        v.push(o.clone());
                        assert(v.deep_view() =~= seq![o@]);
                        self.paths.push(v);
                        assert(self.paths.deep_view() =~= old(self).paths.deep_view().push(seq![o@]));
                    },
                    None => {},
                }
            },
            _ => {},
        }
    }

    /// Walks over `items` in order, descending into modules, and records each
    /// `use` and `extern crate` item.
    pub fn walk_items(&mut self, items: &Vec<ItemNode>)
        ensures
            final(self)@ == view_items_walk(old(self)@, items@),
        decreases items@,
    {
        let n = items.len();
        for k in 0..n
            invariant
                n == items@.len(),
                self@ == view_items_walk(old(self)@, items@.take(k as int)),
        {
            let item = &items[k];
            match &item.node {
                ItemKindNode::Mod(inner) => {
                    assert(decreases_to!(items@ => inner@));
                    self.walk_items(inner);
                },
                _ => self.visit_view_item(item),
            }
            proof {
                let t1 = items@.take(k + 1);
                assert(t1.drop_last() =~= items@.take(k as int));
                assert(t1.last() == items@[k as int]);
            }
        }
        assert(items@.take(n as int) =~= items@);
    }
}

/// A copy of a list of strings.
pub fn copy_strings(v: &Vec<String>) -> (r: Vec<String>)
    ensures
        r.deep_view() == v.deep_view(),
{
    let mut r: Vec<String> = Vec::new();
    let n = v.len();
    for k in 0..n
        invariant
            n == v@.len(),
            r@.len() == k,
            forall|j: int| 0 <= j < k ==> #[trigger] r@[j]@ == v@[j]@,
    {
        r.push(v[k].clone());
    }
    assert(r.deep_view() =~= v.deep_view());
    r
}

/// The name, arguments, return type and kind of the functions in a statement.
pub struct FnVisitor {
    pub name: String,
    pub output: Vec<String>,
    pub args: Vec<(String, usize, Vec<String>)>,
    pub is_method: bool,
}

/// The state of a function visitor as plain values: name, return-type path,
/// arguments (name, start offset, type path) and whether the function is a method.
pub type FnView = (Seq<char>, Seq<Seq<char>>, Seq<(Seq<char>, usize, Seq<Seq<char>>)>, bool);

impl View for FnVisitor {
    type V = FnView;

    open spec fn view(&self) -> Self::V {
        (self.name@, self.output.deep_view(), self.args.deep_view(), self.is_method)
    }
}

/// How many arguments, from the first, bind a plain name.
pub open spec fn leading_ident_args(inputs: Seq<ArgNode>) -> nat
    decreases inputs.len(),
{
    if inputs.len() == 0 {
        0
    } else if inputs[0].pat is Ident {
        1 + leading_ident_args(inputs.drop_first())
    } else {
        0
    }
}

/// The entry recorded for an argument that binds a plain name.
pub open spec fn arg_entry(a: ArgNode) -> (Seq<char>, usize, Seq<Seq<char>>) {
    match a.pat {
        PatNode::Ident { name, lo } => (name@, lo, type_path(a.ty)),
        PatNode::Other => (Seq::empty(), 0, Seq::empty()),
    }
}

/// What visiting the function `name` with header `decl` makes of a function
/// visitor in state `st`.  The name is recorded; the arguments are recorded in
/// order up to the first one that does not bind a plain name, and only when
/// there is no such argument are the return type (when it is a path type) and
/// the kind recorded as well.
pub open spec fn fn_visit(st: FnView, name: Seq<char>, decl: FnDeclNode, is_method: bool) -> FnView {
    let inputs = decl.inputs@;
    let k = leading_ident_args(inputs);
    let args = st.2 + Seq::new(k, |i: int| arg_entry(inputs[i]));
    if k < inputs.len() {
        (name, st.1, args, st.3)
    } else {
        let output = match decl.output {
            Some(TyNode::Path(p)) => path_names(p),
            _ => st.1,
        };
        (name, output, args, is_method)
    }
}

/// What visiting the methods of an impl, in order, makes of state `st`.
pub open spec fn impl_members_walk(st: FnView, members: Seq<ImplItemNode>) -> FnView
    decreases members.len(),
{
    if members.len() == 0 {
        st
    } else {
        let prev = impl_members_walk(st, members.drop_last());
        match members.last() {
            ImplItemNode::Method { name, decl } => fn_visit(prev, name@, decl, true),
            ImplItemNode::Other => prev,
        }
    }
}

/// What visiting the provided methods of a trait, in order, makes of state `st`
/// (a method without a body is not visited).
pub open spec fn trait_members_walk(st: FnView, members: Seq<TraitItemNode>) -> FnView
    decreases members.len(),
{
    if members.len() == 0 {
        st
    } else {
        let prev = trait_members_walk(st, members.drop_last());
        match members.last() {
            TraitItemNode::Method { name, decl, has_body } => if has_body {
                fn_visit(prev, name@, decl, true)
            } else {
                prev
            },
            TraitItemNode::Other => prev,
        }
    }
}

/// What a walk over `items` (descending into modules, impls and traits) makes of
/// a function visitor in state `st`.
pub open spec fn fn_items_walk(st: FnView, items: Seq<ItemNode>) -> FnView
    decreases items,
{
    if items.len() == 0 {
        st
    } else {
        let prev = fn_items_walk(st, items.drop_last());
        let last = items.last();
        match last.node {
            ItemKindNode::Fn(decl) => fn_visit(prev, last.ident@, decl, false),
            ItemKindNode::Impl(_, _, members) => impl_members_walk(prev, members@),
            ItemKindNode::Trait(members) => trait_members_walk(prev, members@),
            ItemKindNode::Mod(inner) => fn_items_walk(prev, inner@),
            _ => prev,
        }
    }
}

pub(crate) proof fn lemma_leading_ident_args(inputs: Seq<ArgNode>, k: int)
    requires
        0 <= k <= inputs.len(),
        forall|j: int| 0 <= j < k ==> (#[trigger] inputs[j]).pat is Ident,
    ensures
        k <= leading_ident_args(inputs) <= inputs.len(),
        k < inputs.len() && !(inputs[k].pat is Ident) ==> leading_ident_args(inputs) == k,
    decreases k,
{
    if inputs.len() > 0 {
        if k > 0 {
            let rest = inputs.drop_first();
            assert forall|j: int| 0 <= j < k - 1 implies (#[trigger] rest[j]).pat is Ident by {
                assert(rest[j] == inputs[j + 1]);
            }
            lemma_leading_ident_args(rest, k - 1);
        } else {
            lemma_leading_ident_args_bound(inputs);
        }
    }
}

proof fn lemma_leading_ident_args_bound(inputs: Seq<ArgNode>)
    ensures
        leading_ident_args(inputs) <= inputs.len(),
    decreases inputs.len(),
{
    if inputs.len() > 0 {
        lemma_leading_ident_args_bound(inputs.drop_first());
    }
}

impl FnVisitor {
    /// An empty visitor.
    pub fn new() -> (v: FnVisitor)
        ensures
            v@ == (
                Seq::<char>::empty(),
                Seq::<Seq<char>>::empty(),
                Seq::<(Seq<char>, usize, Seq<Seq<char>>)>::empty(),
                false,
            ),
    {
        let v = FnVisitor { name: String::new(), output: Vec::new(), args: Vec::new(), is_method: false };
        assert(v.output.deep_view() =~= Seq::<Seq<char>>::empty());
        assert(v.args.deep_view() =~= Seq::<(Seq<char>, usize, Seq<Seq<char>>)>::empty());
        v
    }

    /// Records one function: its name, then its arguments up to the first one
    /// that does not bind a plain name, then (when all do) its return type and kind.
    pub fn visit_fn(&mut self, name: &String, fd: &FnDeclNode, is_method: bool)
        ensures
            final(self)@ == fn_visit(old(self)@, name@, *fd, is_method),
    {
        self.name = name.clone();
        let ghost start = self.args@;
        let ghost inputs = fd.inputs@;
        let n = fd.inputs.len();
        let mut k: usize = 0;
        while k < n
            invariant
                n == inputs.len(),
                inputs == fd.inputs@,
                k <= n,
                self.name@ == name@,
                self.output == old(self).output,
                self.is_method == old(self).is_method,
                forall|j: int| 0 <= j < k ==> (#[trigger] inputs[j]).pat is Ident,
                self.args@.len() == start.len() + k,
                forall|j: int| 0 <= j < start.len() ==> #[trigger] self.args@[j] == start[j],
                forall|j: int|
                    0 <= j < k ==> (#[trigger] self.args@[start.len() + j]).deep_view() == arg_entry(
                        inputs[j],
                    ),
                start == old(self).args@,
            decreases n - k,
        {
            let arg = &fd.inputs[k];
            match &arg.pat {
                PatNode::Ident { name: argname, lo } => {
                    let typepath = type_to_path(&arg.ty);
                    self.args.push((argname.clone(), *lo, typepath));
                },
                PatNode::Other => {
                    proof {
                        lemma_leading_ident_args(inputs, k as int);
                        self.lemma_args_view(start, inputs, k as int);
                    }
                    return;
                },
            }
            k = k + 1;
        }
        proof {
            lemma_leading_ident_args(inputs, n as int);
            self.lemma_args_view(start, inputs, n as int);
        }
        match &fd.output {
            Some(TyNode::Path(p)) => {
                self.output = path_to_vec(p);
            },
            _ => {},
        }
        self.is_method = is_method;
    }

    proof fn lemma_args_view(&self, start: Seq<(String, usize, Vec<String>)>, inputs: Seq<ArgNode>, k: int)
        requires
            0 <= k <= inputs.len(),
            self.args@.len() == start.len() + k,
            forall|j: int| 0 <= j < start.len() ==> #[trigger] self.args@[j] == start[j],
            forall|j: int|
                0 <= j < k ==> (#[trigger] self.args@[start.len() + j]).deep_view() == arg_entry(inputs[j]),
        ensures
            self.args.deep_view() == Seq::new(start.len(), |j: int| start[j].deep_view()) + Seq::new(
                k as nat,
                |i: int| arg_entry(inputs[i]),
            ),
    {
        let expect = Seq::new(start.len(), |j: int| start[j].deep_view()) + Seq::new(
            k as nat,
            |i: int| arg_entry(inputs[i]),
        );
        assert forall|j: int| 0 <= j < expect.len() implies #[trigger] self.args.deep_view()[j] == expect[j] by {
            if j >= start.len() {
                assert(self.args@[start.len() + (j - start.len())] == self.args@[j]);
            }
        }
        assert(self.args.deep_view() =~= expect);
    }

    fn walk_impl_members(&mut self, members: &Vec<ImplItemNode>)
        ensures
            final(self)@ == impl_members_walk(old(self)@, members@),
    {
        let n = members.len();
        for k in 0..n
            invariant
                n == members@.len(),
                self@ == impl_members_walk(old(self)@, members@.take(k as int)),
        {
            match &members[k] {
                ImplItemNode::Method { name, decl } => self.visit_fn(name, decl, true),
                ImplItemNode::Other => {},
            }
            proof {
                let t1 = members@.take(k + 1);
                assert(t1.drop_last() =~= members@.take(k as int));
                assert(t1.last() == members@[k as int]);
            }
        }
        assert(members@.take(n as int) =~= members@);
    }

    fn walk_trait_members(&mut self, members: &Vec<TraitItemNode>)
        ensures
            final(self)@ == trait_members_walk(old(self)@, members@),
    {
        let n = members.len();
        for k in 0..n
            invariant
                n == members@.len(),
                self@ == trait_members_walk(old(self)@, members@.take(k as int)),
        {
            match &members[k] {
                TraitItemNode::Method { name, decl, has_body } => {
                    if *has_body {
                        self.visit_fn(name, decl, true);
                    }
                },
                TraitItemNode::Other => {},
            }
            proof {
                let t1 = members@.take(k + 1);
                assert(t1.drop_last() =~= members@.take(k as int));
                assert(t1.last() == members@[k as int]);
            }
        }
        assert(members@.take(n as int) =~= members@);
    }

    /// Walks over `items` in order, descending into modules, impls and traits,
    /// and records each function reached.
    pub fn walk_items(&mut self, items: &Vec<ItemNode>)
        ensures
            final(self)@ == fn_items_walk(old(self)@, items@),
        decreases items@,
    {
        let n = items.len();
        for k in 0..n
            invariant
                n == items@.len(),
                self@ == fn_items_walk(old(self)@, items@.take(k as int)),
        {
            let item = &items[k];
            match &item.node {
                ItemKindNode::Fn(decl) => self.visit_fn(&item.ident, decl, false),
                ItemKindNode::Impl(_, _, members) => self.walk_impl_members(members),
                ItemKindNode::Trait(members) => self.walk_trait_members(members),
                ItemKindNode::Mod(inner) => {
                    assert(decreases_to!(items@ => inner@));
                    self.walk_items(inner);
                },
                _ => {},
            }
            proof {
                let t1 = items@.take(k + 1);
                assert(t1.drop_last() =~= items@.take(k as int));
                assert(t1.last() == items@[k as int]);
            }
        }
        assert(items@.take(n as int) =~= items@);
    }
}

} // verus!
