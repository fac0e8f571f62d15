//! The resolved syntax tree of a module, as far as the analysis reads it.

use vstd::prelude::*;
use crate::target::{DefKind, ResolvedCallTarget, TargetView};

verus! {

/// What a path or a method call resolves to: a definition and its kind.
#[derive(Debug)]
pub struct Resolution {
    /// The kind of the definition.
    pub kind: DefKind,
    /// The definition.
    pub target: ResolvedCallTarget,
}

/// The callee of a call expression.
#[derive(Debug)]
pub enum Callee {
    /// A path, with the definition that it resolves to, if it resolves to
    /// one.
    Path(Option<Resolution>),
    /// Any other expression.
    Expr(Box<Expr>),
}

/// A call expression: `callee(args)`.
#[derive(Debug)]
pub struct Call {
    /// The kind of the definition in whose body the call stands.
    pub owner: DefKind,
    /// The expression that is called.
    pub callee: Callee,
    /// The arguments, in source order.
    pub args: Vec<Expr>,
}

/// A method call expression: `receiver.method(args)`.
#[derive(Debug)]
pub struct MethodCall {
    /// What the method resolves to, where the call could be typed.
    pub resolution: Option<Resolution>,
    /// The expression that the method is called on.
    pub receiver: Box<Expr>,
    /// The arguments, in source order.
    pub args: Vec<Expr>,
}

/// An expression.
#[derive(Debug)]
pub enum Expr {
    /// A call.
    Call(Call),
    /// A method call.
    MethodCall(MethodCall),
    /// Any other expression, with its direct sub-expressions in source order.
    Other(Vec<Expr>),
}

/// The kinds of free-standing item.
#[derive(Clone, Copy, Debug, PartialEq, Eq, Structural)]
pub enum ItemKind {
    /// A free function.
    Fn,
    /// Any other item: a constant, a static, a type, a module.
    Other,
}

/// A free-standing item of a module.
#[derive(Debug)]
pub struct Item {
    /// Its kind.
    pub kind: ItemKind,
    /// Its body: of a function, what it runs; of a constant or a static, its
    /// initialiser; of any other item, an expression without parts.
    pub body: Expr,
}

/// The kinds of associated item.
#[derive(Clone, Copy, Debug, PartialEq, Eq, Structural)]
pub enum ImplItemKind {
    /// An associated function or a method.
    Fn,
    /// Any other associated item: a constant, a type.
    Other,
}

/// An item associated with a type or a trait.
#[derive(Debug)]
pub struct ImplItem {
    /// Its kind.
    pub kind: ImplItemKind,
    /// Its body, as for an [`Item`].
    pub body: Expr,
}

/// One of the items of a module.
#[derive(Debug)]
pub enum ItemLike {
    /// A free-standing item.
    Item(Item),
    /// An associated item.
    ImplItem(ImplItem),
}

/// A module: one compilation unit, as the list of its items.
#[derive(Debug)]
pub struct Module {
    /// The items of the module, nested ones included, in any order.
    pub items: Vec<ItemLike>,
}

/// The content of a [`Resolution`].
pub struct ResolutionView {
    pub kind: DefKind,
    pub target: TargetView,
}

impl View for Resolution {
    type V = ResolutionView;

    open spec fn view(&self) -> ResolutionView {
        ResolutionView { kind: self.kind, target: self.target@ }
    }
}

/// The content of an optional [`Resolution`].
pub open spec fn resolution_view(resolution: Option<Resolution>) -> Option<ResolutionView> {
    match resolution {
        Some(resolution) => Some(resolution@),
        None => None,
    }
}

/// A call or method call as the analysis sees it.
pub enum Site {
    /// A call from a definition of kind `owner`. `callee` is what its callee
    /// resolves to, if the callee is a path and resolves to a definition.
    Call { owner: DefKind, callee: Option<ResolutionView> },
    /// A method call, with what the method resolves to, if it could be typed.
    MethodCall { resolution: Option<ResolutionView> },
}

impl Call {
    /// The call as the analysis sees it.
    pub open spec fn site(&self) -> Site {
        Site::Call {
            owner: self.owner,
            callee: match self.callee {
                Callee::Path(resolution) => resolution_view(resolution),
                Callee::Expr(_) => None,
            },
        }
    }
}

impl MethodCall {
    /// The method call as the analysis sees it.
    pub open spec fn site(&self) -> Site {
        Site::MethodCall { resolution: resolution_view(self.resolution) }
    }
}

impl Expr {
    /// The calls and method calls that a walk of the expression reaches, in
    /// the order in which it reaches them. At a call the walk reaches the
    /// call itself, then what stands in its arguments; at a method call the
    /// method call itself, then what stands in the receiver, then what
    /// stands in the arguments. Through any other expression it descends
    /// part by part. Only the callee of a call is not walked: it is what the
    /// call itself is about.
    pub open spec fn sites(&self) -> Seq<Site>
        decreases self,
    {
        match self {
            Expr::Call(call) => seq![call.site()] + sites_of_all(call.args@),
            Expr::MethodCall(call) => seq![call.site()] + call.receiver.sites() + sites_of_all(
                call.args@,
            ),
            Expr::Other(children) => sites_of_all(children@),
        }
    }
}

/// The sites of each expression of `exprs`, first to last.
pub open spec fn sites_of_all(exprs: Seq<Expr>) -> Seq<Site>
    decreases exprs,
{
    if exprs.len() == 0 {
        Seq::empty()
    } else {
        sites_of_all(exprs.drop_last()) + exprs.last().sites()
    }
}

impl Item {
    /// The sites that a walk of the item reaches: those of its body if it is
    /// a function, none otherwise.
    pub open spec fn sites(&self) -> Seq<Site> {
        if self.kind is Fn {
            self.body.sites()
        } else {
            Seq::empty()
        }
    }
}

impl ImplItem {
    /// The sites that a walk of the item reaches: those of its body if it is
    /// a function, none otherwise.
    pub open spec fn sites(&self) -> Seq<Site> {
        if self.kind is Fn {
            self.body.sites()
        } else {
            Seq::empty()
        }
    }
}

impl ItemLike {
    /// The sites that a walk of the item reaches.
    pub open spec fn sites(&self) -> Seq<Site> {
        match self {
            ItemLike::Item(item) => item.sites(),
            ItemLike::ImplItem(item) => item.sites(),
        }
    }
}

/// The sites that a walk of `items` reaches, item by item.
pub open spec fn sites_of_items(items: Seq<ItemLike>) -> Seq<Site>
    decreases items.len(),
{
    if items.len() == 0 {
        Seq::empty()
    } else {
        sites_of_items(items.drop_last()) + items.last().sites()
    }
}

impl Module {
    /// The sites that a walk of the module reaches.
    pub open spec fn sites(&self) -> Seq<Site> {
        sites_of_items(self.items@)
    }
}

/// The sites of a sequence of expressions are those of any first part of it,
/// then those of the rest.
pub proof fn lemma_sites_of_all_concat(first: Seq<Expr>, rest: Seq<Expr>)
    ensures
        sites_of_all(first + rest) == sites_of_all(first) + sites_of_all(rest),
    decreases rest.len(),
{
    if rest.len() > 0 {
        assert((first + rest).drop_last() =~= first + rest.drop_last());
        lemma_sites_of_all_concat(first, rest.drop_last());
    }
}

/// A site of one expression of a sequence is a site of the sequence: what a
/// walk reaches in a part, at whatever depth, it reaches in the whole.
pub proof fn lemma_sites_of_part(exprs: Seq<Expr>, at: int, site: Site)
    requires
        0 <= at < exprs.len(),
        exprs[at].sites().contains(site),
    ensures
        sites_of_all(exprs).contains(site),
    decreases exprs.len(),
{
    let front = sites_of_all(exprs.drop_last());
    let back = exprs.last().sites();
    if at == exprs.len() - 1 {
        let i = choose|i: int| 0 <= i < back.len() && back[i] == site;
        assert((front + back)[front.len() + i] == site);
    } else {
        lemma_sites_of_part(exprs.drop_last(), at, site);
        let i = choose|i: int| 0 <= i < front.len() && front[i] == site;
        assert((front + back)[i] == site);
    }
}

/// The sites of a sequence of items are those of any first part of it, then
/// those of the rest.
pub proof fn lemma_sites_of_items_concat(first: Seq<ItemLike>, rest: Seq<ItemLike>)
    ensures
        sites_of_items(first + rest) == sites_of_items(first) + sites_of_items(rest),
    decreases rest.len(),
{
    if rest.len() > 0 {
        assert((first + rest).drop_last() =~= first + rest.drop_last());
        lemma_sites_of_items_concat(first, rest.drop_last());
    }
}

} // verus!
