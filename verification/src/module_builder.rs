use vstd::prelude::*;
use vstd::string::*;

verus! {

/// The kinds of module methods that `#[module_impl]` exposes to zsh.
#[derive(Clone, Copy, PartialEq, Eq, Structural)]
pub enum MethodKind {
    Builtin,
    Function,
    Widget,
}

/// The marker attribute of a method kind: `#[builtin]`, `#[function]`, `#[widget]`.
pub open spec fn marker_text(kind: MethodKind) -> Seq<char> {
    match kind {
        MethodKind::Builtin => "builtin"@,
        MethodKind::Function => "function"@,
        MethodKind::Widget => "widget"@,
    }
}

/// The kind that an attribute path marks: the path must be exactly one of the
/// marker identifiers.
pub open spec fn marked_kind(path_ident: Option<Seq<char>>) -> Option<MethodKind> {
    match path_ident {
        Some(p) => if p == marker_text(MethodKind::Builtin) {
            Some(MethodKind::Builtin)
        } else if p == marker_text(MethodKind::Function) {
            Some(MethodKind::Function)
        } else if p == marker_text(MethodKind::Widget) {
            Some(MethodKind::Widget)
        } else {
            None
        },
        None => None,
    }
}

/// The path of an attribute of a method, as far as marking goes: the
/// identifier when the path is a single identifier, nothing otherwise.
pub struct AttrPath {
    pub ident: Option<String>,
}

impl View for AttrPath {
    type V = Option<Seq<char>>;

    open spec fn view(&self) -> Option<Seq<char>> {
        match self.ident {
            Some(s) => Some(s@),
            None => None,
        }
    }
}

/// The last marker among `attrs`: its index and the kind it marks.
pub open spec fn last_marker(attrs: Seq<Option<Seq<char>>>) -> Option<(int, MethodKind)>
    decreases attrs.len(),
{
    if attrs.len() == 0 {
        None
    } else {
        match marked_kind(attrs.last()) {
            Some(k) => Some(((attrs.len() - 1) as int, k)),
            None => last_marker(attrs.drop_last()),
        }
    }
}

/// The kind that an attribute list marks a method with: that of its last marker.
pub open spec fn method_kind(attrs: Seq<Option<Seq<char>>>) -> Option<MethodKind> {
    match last_marker(attrs) {
        Some((_, k)) => Some(k),
        None => None,
    }
}

/// The attribute list without the last marker, which is spent.
pub open spec fn without_marker(attrs: Seq<Option<Seq<char>>>) -> Seq<Option<Seq<char>>> {
    match last_marker(attrs) {
        Some((i, _)) => attrs.remove(i),
        None => attrs,
    }
}

/// The kind that an attribute path marks.
fn attr_kind(attr: &AttrPath) -> (k: Option<MethodKind>)
    ensures
        k == marked_kind(attr@),
{
    match &attr.ident {
        Some(p) => {
            if *p == String::from_str("builtin") {
                Some(MethodKind::Builtin)
            } else if *p == String::from_str("function") {
                Some(MethodKind::Function)
            } else if *p == String::from_str("widget") {
                Some(MethodKind::Widget)
            } else {
                None
            }
        },
        None => None,
    }
}

/// The last marker among a method's attributes: its index and the kind it marks.
pub fn last_marker_index(attrs: &Vec<AttrPath>) -> (found: Option<(usize, MethodKind)>)
    ensures
        match found {
            Some((i, k)) => last_marker(attrs@.map_values(|a: AttrPath| a@)) == Some((i as int, k)),
            None => last_marker(attrs@.map_values(|a: AttrPath| a@)) is None,
        },
        found matches Some((i, _)) ==> i < attrs@.len(),
{
    let ghost paths = attrs@.map_values(|a: AttrPath| a@);
    let mut found: Option<(usize, MethodKind)> = None;
    let n = attrs.len();
    for i in 0..n
        invariant
            n == attrs@.len(),
            paths == attrs@.map_values(|a: AttrPath| a@),
            match last_marker(paths.subrange(0, i as int)) {
                Some((j, k)) => 0 <= j < i && found == Some((j as usize, k)),
                None => found is None,
            },
    {
        let k = attr_kind(&attrs[i]);
        let ghost pre = paths.subrange(0, i as int);
        let ghost post = paths.subrange(0, i + 1);
        assert(post.drop_last() =~= pre);
        assert(post.last() == attrs@[i as int]@);
        if let Some(k) = k {
            found = Some((i, k));
        }
    }
    assert(paths.subrange(0, n as int) =~= paths);
    found
}

/// Finds the kind with which a method's attributes mark it, and removes the
/// marker that decides it (the last one) from the attributes.
pub fn find_fn_type(attrs: &mut Vec<AttrPath>) -> (kind: Option<MethodKind>)
    ensures
        kind == method_kind(old(attrs)@.map_values(|a: AttrPath| a@)),
        final(attrs)@.map_values(|a: AttrPath| a@) == without_marker(
            old(attrs)@.map_values(|a: AttrPath| a@),
        ),
{
    let ghost paths = attrs@.map_values(|a: AttrPath| a@);
    match last_marker_index(attrs) {
        Some((index, typ)) => {
            attrs.remove(index);
            assert(attrs@.map_values(|a: AttrPath| a@) =~= paths.remove(index as int));
            Some(typ)
        },
        None => None,
    }
}

/// The name of the C entry point through which zsh calls a builtin or a
/// widget method: `__zmod_builtin_<Type>_<method>`.
pub open spec fn builtin_trampoline_name(self_ty: Seq<char>, fname: Seq<char>) -> Seq<char> {
    "__zmod_builtin_"@ + self_ty + "_"@ + fname
}

/// The name of the builtin behind a shell function method:
/// `__zmod_function_builtin_<Type>_<method>`.
pub open spec fn function_trampoline_name(self_ty: Seq<char>, fname: Seq<char>) -> Seq<char> {
    "__zmod_function_builtin_"@ + self_ty + "_"@ + fname
}

/// The script that defines the shell function `fname` as a call of the
/// builtin `trampoline` with all the arguments: `fname() { builtin trampoline $@ }`.
pub open spec fn function_registration_script(fname: Seq<char>, trampoline: Seq<char>) -> Seq<char> {
    fname + "() { builtin "@ + trampoline + " $@ }"@
}

/// The name of the struct that lists the names of one kind of method:
/// `<Type><suffix>`.
pub open spec fn names_struct_name(self_ty: Seq<char>, suffix: Seq<char>) -> Seq<char> {
    self_ty + suffix
}

/// `prefix` followed by `a`, `"_"` and `b`.
fn joined_name(prefix: &str, a: &String, b: &String) -> (name: String)
    ensures
        name@ == prefix@ + a@ + "_"@ + b@,
{
    let mut name = String::from_str(prefix);
    name.append(a.as_str());
    name.append("_");
    name.append(b.as_str());
    name
}

/// Writes `__zmod_builtin_<Type>_<method>`.
pub fn builtin_trampoline(self_ty: &String, fname: &String) -> (name: String)
    ensures
        name@ == builtin_trampoline_name(self_ty@, fname@),
{
    joined_name("__zmod_builtin_", self_ty, fname)
}

/// Writes `__zmod_function_builtin_<Type>_<method>`.
pub fn function_trampoline(self_ty: &String, fname: &String) -> (name: String)
    ensures
        name@ == function_trampoline_name(self_ty@, fname@),
{
    joined_name("__zmod_function_builtin_", self_ty, fname)
}

/// Writes `fname() { builtin trampoline $@ }`.
pub fn registration_script(fname: &String, trampoline: &String) -> (script: String)
    ensures
        script@ == function_registration_script(fname@, trampoline@),
{
    let mut script = fname.clone();
    script.append("() { builtin ");
    script.append(trampoline.as_str());
    script.append(" $@ }");
    script
}

/// A method name and the C string literal with which the module names it to zsh.
pub struct NamePair {
    pub ident: String,
    pub literal: String,
}

impl View for NamePair {
    type V = (Seq<char>, Seq<char>);

    open spec fn view(&self) -> (Seq<char>, Seq<char>) {
        (self.ident@, self.literal@)
    }
}

/// One entry of the module's table of builtins: its name, the entry point
/// that runs it, and the bounds on its number of arguments (`-1`: no bound).
pub struct BintabRecord {
    pub nam: String,
    pub handlerfunc: String,
    pub minargs: i32,
    pub maxargs: i32,
}

impl View for BintabRecord {
    type V = (Seq<char>, Seq<char>, i32, i32);

    open spec fn view(&self) -> (Seq<char>, Seq<char>, i32, i32) {
        (self.nam@, self.handlerfunc@, self.minargs, self.maxargs)
    }
}

/// An entry point that zsh calls: its name, the method it runs, and the label
/// under which a panic in it is reported.
pub enum Trampoline {
    Builtin { name: String, method: String, label: String },
    Widget { name: String, method: String, label: String },
}

/// The entry point as plain values.
pub enum TrampolineView {
    Builtin(Seq<char>, Seq<char>, Seq<char>),
    Widget(Seq<char>, Seq<char>, Seq<char>),
}

impl View for Trampoline {
    type V = TrampolineView;

    open spec fn view(&self) -> TrampolineView {
        match self {
            Trampoline::Builtin { name, method, label } => TrampolineView::Builtin(
                name@,
                method@,
                label@,
            ),
            Trampoline::Widget { name, method, label } => TrampolineView::Widget(
                name@,
                method@,
                label@,
            ),
        }
    }
}

/// A step that the module's setup takes before its own `setup`: run a
/// script, or register a zle widget under a name with its entry point.
pub enum SetupPart {
    Exec(String),
    AddWidget { name: String, trampoline: String },
}

/// The setup step as plain values.
pub enum SetupPartView {
    Exec(Seq<char>),
    AddWidget(Seq<char>, Seq<char>),
}

impl View for SetupPart {
    type V = SetupPartView;

    open spec fn view(&self) -> SetupPartView {
        match self {
            SetupPart::Exec(s) => SetupPartView::Exec(s@),
            SetupPart::AddWidget { name, trampoline } => SetupPartView::AddWidget(
                name@,
                trampoline@,
            ),
        }
    }
}

/// What `#[module_impl]` gathers from an impl block, before it writes code.
pub struct ModuleImplBuilder {
    pub self_ty: String,
    pub builtin_names: Vec<NamePair>,
    pub function_names: Vec<NamePair>,
    pub widget_names: Vec<NamePair>,
    pub bintab_records: Vec<BintabRecord>,
    pub setup_parts: Vec<SetupPart>,
    pub trampolines: Vec<Trampoline>,
}

/// The builder as plain values.
pub struct BuilderView {
    pub self_ty: Seq<char>,
    pub builtin_names: Seq<(Seq<char>, Seq<char>)>,
    pub function_names: Seq<(Seq<char>, Seq<char>)>,
    pub widget_names: Seq<(Seq<char>, Seq<char>)>,
    pub bintab_records: Seq<(Seq<char>, Seq<char>, i32, i32)>,
    pub setup_parts: Seq<SetupPartView>,
    pub trampolines: Seq<TrampolineView>,
}

impl View for ModuleImplBuilder {
    type V = BuilderView;

    open spec fn view(&self) -> BuilderView {
        BuilderView {
            self_ty: self.self_ty@,
            builtin_names: self.builtin_names@.map_values(|p: NamePair| p@),
            function_names: self.function_names@.map_values(|p: NamePair| p@),
            widget_names: self.widget_names@.map_values(|p: NamePair| p@),
            bintab_records: self.bintab_records@.map_values(|r: BintabRecord| r@),
            setup_parts: self.setup_parts@.map_values(|p: SetupPart| p@),
            trampolines: self.trampolines@.map_values(|t: Trampoline| t@),
        }
    }
}

/// The builder with nothing gathered yet.
pub open spec fn empty_builder(self_ty: Seq<char>) -> BuilderView {
    BuilderView {
        self_ty,
        builtin_names: Seq::empty(),
        function_names: Seq::empty(),
        widget_names: Seq::empty(),
        bintab_records: Seq::empty(),
        setup_parts: Seq::empty(),
        trampolines: Seq::empty(),
    }
}

/// Adding a builtin named `bn_name` that runs method `fname` through `trampoline`:
/// its names, its entry point, and its entry in the table (any number of arguments).
pub open spec fn with_builtin(
    v: BuilderView,
    bn_name: Seq<char>,
    fname: Seq<char>,
    trampoline: Seq<char>,
) -> BuilderView {
    BuilderView {
        builtin_names: v.builtin_names.push((fname, bn_name)),
        trampolines: v.trampolines.push(TrampolineView::Builtin(trampoline, fname, bn_name)),
        bintab_records: v.bintab_records.push((bn_name, trampoline, 0i32, -1i32)),
        ..v
    }
}

/// Adding a builtin method: the builtin has the method's name.
pub open spec fn with_builtin_method(v: BuilderView, fname: Seq<char>) -> BuilderView {
    with_builtin(v, fname, fname, builtin_trampoline_name(v.self_ty, fname))
}

/// Adding a shell function method: a builtin named after its entry point, and
/// a setup step that defines the function as a call of that builtin.
pub open spec fn with_function_method(v: BuilderView, fname: Seq<char>) -> BuilderView {
    let t = function_trampoline_name(v.self_ty, fname);
    let w = with_builtin(
        BuilderView { function_names: v.function_names.push((fname, fname)), ..v },
        t,
        fname,
        t,
    );
    BuilderView {
        setup_parts: w.setup_parts.push(
            SetupPartView::Exec(function_registration_script(fname, t)),
        ),
        ..w
    }
}

/// Adding a widget method: its names, its entry point, and a setup step that
/// registers it with zle.
pub open spec fn with_widget_method(v: BuilderView, fname: Seq<char>) -> BuilderView {
    let t = builtin_trampoline_name(v.self_ty, fname);
    BuilderView {
        widget_names: v.widget_names.push((fname, fname)),
        trampolines: v.trampolines.push(TrampolineView::Widget(t, fname, fname)),
        setup_parts: v.setup_parts.push(SetupPartView::AddWidget(fname, t)),
        ..v
    }
}

/// Adding a method according to its kind; unmarked methods add nothing.
pub open spec fn with_method(v: BuilderView, kind: Option<MethodKind>, fname: Seq<char>) -> BuilderView {
    match kind {
        Some(MethodKind::Builtin) => with_builtin_method(v, fname),
        Some(MethodKind::Function) => with_function_method(v, fname),
        Some(MethodKind::Widget) => with_widget_method(v, fname),
        None => v,
    }
}

/// What looking up a crate in the manifest of the crate being compiled found.
pub enum CrateLookup {
    /// The crate being compiled is that crate.
    Itself,
    /// It depends on the crate under this name.
    Name(String),
    /// The lookup failed.
    NotFound,
}

/// The path by which generated code names the crate `public_name`.
pub open spec fn crate_root_path_text(lookup: CrateLookup, public_name: Seq<char>) -> Seq<char> {
    match lookup {
        CrateLookup::Itself => "crate"@,
        CrateLookup::Name(found) => "::"@ + found@,
        CrateLookup::NotFound => "::"@ + public_name,
    }
}

/// The path by which generated code names the crate `public_name`: `crate`
/// inside it, `::<name>` under the name it was found under, and
/// `::<public_name>` when it was not found.
pub fn crate_root_path_from_name(lookup: &CrateLookup, public_name: &String) -> (path: String)
    ensures
        path@ == crate_root_path_text(*lookup, public_name@),
{
    match lookup {
        CrateLookup::Itself => String::from_str("crate"),
        CrateLookup::Name(found) => {
            let mut p = String::from_str("::");
            p.append(found.as_str());
            p
        },
        CrateLookup::NotFound => {
            let mut p = String::from_str("::");
            p.append(public_name.as_str());
            p
        },
    }
}

/// The shape of a type, as far as naming the impl's type goes: a path (with
/// or without a qualified self type) and its segment names, or anything else.
pub enum TypeShape {
    Path { qself: bool, segments: Vec<String> },
    Other,
}

/// The identifier of a type: the last segment of a plain path.
pub open spec fn path_ident_of(ty: TypeShape) -> Option<Seq<char>> {
    match ty {
        TypeShape::Path { qself, segments } => if !qself && segments@.len() > 0 {
            Some(segments@.last()@)
        } else {
            None
        },
        TypeShape::Other => None,
    }
}

/// The identifier of a type that is a plain path: its last segment.
pub fn path_ident(ty: &TypeShape) -> (ident: Option<String>)
    ensures
        match ident {
            Some(i) => path_ident_of(*ty) == Some(i@),
            None => path_ident_of(*ty) is None,
        },
{
    match ty {
        TypeShape::Path { qself, segments } => {
            if !*qself && segments.len() > 0 {
                Some(segments[segments.len() - 1].clone())
            } else {
                None
            }
        },
        TypeShape::Other => None,
    }
}

/// A method of the impl block: its name and the paths of its attributes.
pub struct MethodItem {
    pub name: String,
    pub attrs: Vec<AttrPath>,
}

/// The attribute paths of a method as plain values.
pub open spec fn attr_views(attrs: Seq<AttrPath>) -> Seq<Option<Seq<char>>> {
    attrs.map_values(|a: AttrPath| a@)
}

/// Each method's kind (from its attributes) and name.
pub open spec fn method_entries(items: Seq<MethodItem>) -> Seq<(Option<MethodKind>, Seq<char>)> {
    items.map_values(|m: MethodItem| (method_kind(attr_views(m.attrs@)), m.name@))
}

/// The builder after taking in the methods in order.
pub open spec fn built_view(v: BuilderView, methods: Seq<(Option<MethodKind>, Seq<char>)>) -> BuilderView
    decreases methods.len(),
{
    if methods.len() == 0 {
        v
    } else {
        with_method(built_view(v, methods.drop_last()), methods.last().0, methods.last().1)
    }
}

impl ModuleImplBuilder {
    /// A builder for the impl block of `self_ty`, with nothing gathered yet.
    pub fn new(self_ty: String) -> (b: Self)
        ensures
            b@ == empty_builder(self_ty@),
    {
        let b = ModuleImplBuilder {
            self_ty,
            builtin_names: Vec::new(),
            function_names: Vec::new(),
            widget_names: Vec::new(),
            bintab_records: Vec::new(),
            setup_parts: Vec::new(),
            trampolines: Vec::new(),
        };
        assert(b@.builtin_names =~= Seq::empty());
        assert(b@.function_names =~= Seq::empty());
        assert(b@.widget_names =~= Seq::empty());
        assert(b@.bintab_records =~= Seq::empty());
        assert(b@.setup_parts =~= Seq::empty());
        assert(b@.trampolines =~= Seq::empty());
        b
    }

    /// Adds the builtin `bn_name`, which runs method `fname` through `trampoline`.
    pub fn add_builtin(&mut self, bn_name: &String, fname: &String, trampoline: &String)
        ensures
            final(self)@ == with_builtin(old(self)@, bn_name@, fname@, trampoline@),
    {
        let ghost v = self@;
        self.builtin_names.push(NamePair { ident: fname.clone(), literal: bn_name.clone() });
        self.trampolines.push(
            Trampoline::Builtin {
                name: trampoline.clone(),
                method: fname.clone(),
                label: bn_name.clone(),
            },
        );
        self.bintab_records.push(
            BintabRecord {
                nam: bn_name.clone(),
                handlerfunc: trampoline.clone(),
                minargs: 0,
                maxargs: -1,
            },
        );
        assert(self@.builtin_names =~= v.builtin_names.push((fname@, bn_name@)));
        assert(self@.trampolines =~= v.trampolines.push(
            TrampolineView::Builtin(trampoline@, fname@, bn_name@),
        ));
        assert(self@.bintab_records =~= v.bintab_records.push((bn_name@, trampoline@, 0i32, -1i32)));
        assert(self@.function_names =~= v.function_names);
        assert(self@.widget_names =~= v.widget_names);
        assert(self@.setup_parts =~= v.setup_parts);
    }

    /// The number of entries in the module's table of builtins.
    pub fn bintab_count(&self) -> (count: usize)
        ensures
            count == self@.bintab_records.len(),
    {
        self.bintab_records.len()
    }

    /// The name of the struct that lists the builtins: `<Type>Builtins`.
    pub fn builtins_struct_name(&self) -> (name: String)
        ensures
            name@ == names_struct_name(self@.self_ty, "Builtins"@),
    {
        let mut name = self.self_ty.clone();
        name.append("Builtins");
        name
    }

    /// The name of the struct that lists the shell functions: `<Type>Functions`.
    pub fn functions_struct_name(&self) -> (name: String)
        ensures
            name@ == names_struct_name(self@.self_ty, "Functions"@),
    {
        let mut name = self.self_ty.clone();
        name.append("Functions");
        name
    }

    /// The name of the struct that lists the widgets: `<Type>Widgets`.
    pub fn widgets_struct_name(&self) -> (name: String)
        ensures
            name@ == names_struct_name(self@.self_ty, "Widgets"@),
    {
        let mut name = self.self_ty.clone();
        name.append("Widgets");
        name
    }

    /// Takes in a `#[builtin]` method: a builtin of the same name.
    pub fn process_builtin(&mut self, fname: &String)
        ensures
            final(self)@ == with_builtin_method(old(self)@, fname@),
    {
        let trampoline = builtin_trampoline(&self.self_ty, fname);
        let fname_lit = fname.clone();
        self.add_builtin(&fname_lit, fname, &trampoline);
    }

    /// Takes in a `#[function]` method: a builtin behind it, and the shell
    /// function that calls that builtin.
    pub fn add_function(&mut self, fname: &String)
        ensures
            final(self)@ == with_function_method(old(self)@, fname@),
    {
        let ghost v = self@;
        let fname_lit = fname.clone();
        self.function_names.push(NamePair { ident: fname.clone(), literal: fname_lit });
        assert(self@.function_names =~= v.function_names.push((fname@, fname@)));
        assert(self@ == BuilderView { function_names: v.function_names.push((fname@, fname@)), ..v });
        let trampoline = function_trampoline(&self.self_ty, fname);
        let bn_name = trampoline.clone();
        self.add_builtin(&bn_name, fname, &trampoline);
        let ghost w = self@;
        let script = registration_script(fname, &trampoline);
        self.setup_parts.push(SetupPart::Exec(script));
        assert(self@.setup_parts =~= w.setup_parts.push(
            SetupPartView::Exec(function_registration_script(fname@, trampoline@)),
        ));
    }

    /// Takes in a `#[function]` method.
    pub fn process_function(&mut self, fname: &String)
        ensures
            final(self)@ == with_function_method(old(self)@, fname@),
    {
        self.add_function(fname);
    }

    /// Gathers what `#[module_impl]` needs from the methods of the impl block
    /// of `self_ty`, in order, and hands the methods back with the marker
    /// attribute that decided each one's kind removed.
    pub fn build(self_ty: String, items: Vec<MethodItem>) -> (res: (ModuleImplBuilder, Vec<MethodItem>))
        ensures
            res.0@ == built_view(empty_builder(self_ty@), method_entries(items@)),
            res.1@.len() == items@.len(),
            forall|i: int|
                0 <= i < items@.len() ==> (#[trigger] res.1@[i]).name@ == items@[i].name@
                    && attr_views(res.1@[i].attrs@) == without_marker(attr_views(items@[i].attrs@)),
    {
        let ghost orig = items@;
        let ghost sty = self_ty@;
        let mut builder = ModuleImplBuilder::new(self_ty);
        let mut items = items;
        let mut out: Vec<MethodItem> = Vec::new();
        let n = items.len();
        let mut k: usize = 0;
        while k < n
            invariant
                n == orig.len(),
                k <= n,
                items@ == orig.subrange(k as int, n as int),
                builder@ == built_view(empty_builder(sty), method_entries(orig.subrange(0, k as int))),
                out@.len() == k,
                forall|i: int|
                    0 <= i < k ==> (#[trigger] out@[i]).name@ == orig[i].name@ && attr_views(
                        out@[i].attrs@,
                    ) == without_marker(attr_views(orig[i].attrs@)),
            decreases n - k,
        {
            let mut item = items.remove(0);
            assert(item == orig[k as int]);
            let kind = find_fn_type(&mut item.attrs);
            let ghost before = builder@;
            match kind {
                Some(MethodKind::Builtin) => builder.process_builtin(&item.name),
                Some(MethodKind::Function) => builder.process_function(&item.name),
                Some(MethodKind::Widget) => builder.process_widget(&item.name),
                None => {},
            }
            let ghost pre = method_entries(orig.subrange(0, k as int));
            let ghost post = method_entries(orig.subrange(0, k + 1));
            assert(post.drop_last() =~= pre);
            assert(post.last() == (method_kind(attr_views(orig[k as int].attrs@)), orig[k as int].name@));
            out.push(item);
            k = k + 1;
            assert(items@ =~= orig.subrange(k as int, n as int));
        }
        assert(orig.subrange(0, n as int) =~= orig);
        (builder, out)
    }

    /// Takes in a `#[widget]` method: its entry point, and its registration
    /// with zle at setup.
    pub fn process_widget(&mut self, fname: &String)
        ensures
            final(self)@ == with_widget_method(old(self)@, fname@),
    {
        let ghost v = self@;
        let trampoline = builtin_trampoline(&self.self_ty, fname);
        self.widget_names.push(NamePair { ident: fname.clone(), literal: fname.clone() });
        self.trampolines.push(
            Trampoline::Widget {
                name: trampoline.clone(),
                method: fname.clone(),
                label: fname.clone(),
            },
        );
        self.setup_parts.push(
            SetupPart::AddWidget { name: fname.clone(), trampoline: trampoline.clone() },
        );
        assert(self@.widget_names =~= v.widget_names.push((fname@, fname@)));
        assert(self@.trampolines =~= v.trampolines.push(
            TrampolineView::Widget(trampoline@, fname@, fname@),
        ));
        assert(self@.setup_parts =~= v.setup_parts.push(SetupPartView::AddWidget(fname@, trampoline@)));
        assert(self@.builtin_names =~= v.builtin_names);
        assert(self@.function_names =~= v.function_names);
        assert(self@.bintab_records =~= v.bintab_records);
    }
}

/// The number of methods of kind `k`.
pub open spec fn count_kind(methods: Seq<(Option<MethodKind>, Seq<char>)>, k: MethodKind) -> nat
    decreases methods.len(),
{
    if methods.len() == 0 {
        0
    } else {
        count_kind(methods.drop_last(), k) + if methods.last().0 == Some(k) {
            1nat
        } else {
            0nat
        }
    }
}

/// The builder's table agrees with its names: entry `i` of the table is the
/// builtin named by the `i`-th builtin name and takes any number of arguments,
/// and each script of the setup defines a shell function as a call of a
/// builtin of the table whose entry point has the builtin's name.
pub open spec fn builder_consistent(v: BuilderView) -> bool {
    &&& v.bintab_records.len() == v.builtin_names.len()
    &&& forall|i: int|
        0 <= i < v.bintab_records.len() ==> {
            &&& (#[trigger] v.bintab_records[i]).0 == v.builtin_names[i].1
            &&& v.bintab_records[i].2 == 0
            &&& v.bintab_records[i].3 == -1
        }
    &&& forall|j: int|
        0 <= j < v.setup_parts.len() ==> setup_part_backed(v, #[trigger] v.setup_parts[j])
}

/// The script of a setup step is backed by a builtin of the table, whose
/// entry point has the builtin's name.
pub open spec fn setup_part_backed(v: BuilderView, part: SetupPartView) -> bool {
    match part {
        SetupPartView::Exec(script) => exists|i: int|
            0 <= i < v.bintab_records.len() && v.bintab_records[i].1 == v.bintab_records[i].0
                && script == function_registration_script(
                v.builtin_names[i].0,
                #[trigger] v.bintab_records[i].0,
            ),
        SetupPartView::AddWidget(_, _) => true,
    }
}

/// A builder that extends another keeps the backing of the other's setup steps.
proof fn lemma_setup_backing_kept(v: BuilderView, w: BuilderView)
    requires
        forall|j: int| 0 <= j < v.setup_parts.len() ==> setup_part_backed(v, #[trigger] v.setup_parts[j]),
        v.bintab_records.len() == v.builtin_names.len(),
        v.bintab_records.len() <= w.bintab_records.len(),
        v.builtin_names.len() <= w.builtin_names.len(),
        v.setup_parts.len() <= w.setup_parts.len(),
        forall|i: int| 0 <= i < v.bintab_records.len() ==> #[trigger] w.bintab_records[i] == v.bintab_records[i],
        forall|i: int| 0 <= i < v.builtin_names.len() ==> #[trigger] w.builtin_names[i] == v.builtin_names[i],
        forall|j: int| 0 <= j < v.setup_parts.len() ==> #[trigger] w.setup_parts[j] == v.setup_parts[j],
    ensures
        forall|j: int| 0 <= j < v.setup_parts.len() ==> setup_part_backed(w, #[trigger] w.setup_parts[j]),
{
    assert forall|j: int| 0 <= j < v.setup_parts.len() implies setup_part_backed(
        w,
        #[trigger] w.setup_parts[j],
    ) by {
        assert(w.setup_parts[j] == v.setup_parts[j]);
        assert(setup_part_backed(v, v.setup_parts[j]));
        if let SetupPartView::Exec(script) = v.setup_parts[j] {
            let i = choose|i: int|
                0 <= i < v.bintab_records.len() && v.bintab_records[i].1 == v.bintab_records[i].0
                    && script == function_registration_script(
                    v.builtin_names[i].0,
                    #[trigger] v.bintab_records[i].0,
                );
            assert(w.bintab_records[i] == v.bintab_records[i]);
            assert(w.builtin_names[i] == v.builtin_names[i]);
        }
    }
}

proof fn lemma_with_method_consistent(v: BuilderView, kind: Option<MethodKind>, fname: Seq<char>)
    requires
        builder_consistent(v),
    ensures
        builder_consistent(with_method(v, kind, fname)),
        with_method(v, kind, fname).self_ty == v.self_ty,
{
    let w = with_method(v, kind, fname);
    assert forall|j: int| 0 <= j < v.setup_parts.len() implies setup_part_backed(
        v,
        #[trigger] v.setup_parts[j],
    ) by {}
    lemma_setup_backing_kept(v, w);
    if kind == Some(MethodKind::Function) {
        let t = function_trampoline_name(v.self_ty, fname);
        let n = v.bintab_records.len() as int;
        assert(w.bintab_records[n] == (t, t, 0i32, -1i32));
        assert(w.builtin_names[n] == (fname, t));
        assert(w.setup_parts.last() == SetupPartView::Exec(function_registration_script(fname, t)));
        assert(w.bintab_records[n].1 == w.bintab_records[n].0 && function_registration_script(fname, t)
            == function_registration_script(w.builtin_names[n].0, w.bintab_records[n].0));
        assert(setup_part_backed(w, w.setup_parts.last()));
    }
    assert forall|j: int| 0 <= j < w.setup_parts.len() implies setup_part_backed(
        w,
        #[trigger] w.setup_parts[j],
    ) by {}
}

/// Law: whatever the methods, the gathered builder is consistent (see
/// `builder_consistent`), and it holds one entry point per marked method, one
/// table entry per builtin and shell function method, and one setup step per
/// shell function and widget method.
pub proof fn lemma_build_consistent(self_ty: Seq<char>, methods: Seq<(Option<MethodKind>, Seq<char>)>)
    ensures
        builder_consistent(built_view(empty_builder(self_ty), methods)),
        built_view(empty_builder(self_ty), methods).self_ty == self_ty,
        built_view(empty_builder(self_ty), methods).bintab_records.len() == count_kind(
            methods,
            MethodKind::Builtin,
        ) + count_kind(methods, MethodKind::Function),
        built_view(empty_builder(self_ty), methods).function_names.len() == count_kind(
            methods,
            MethodKind::Function,
        ),
        built_view(empty_builder(self_ty), methods).widget_names.len() == count_kind(
            methods,
            MethodKind::Widget,
        ),
        built_view(empty_builder(self_ty), methods).trampolines.len() == count_kind(
            methods,
            MethodKind::Builtin,
        ) + count_kind(methods, MethodKind::Function) + count_kind(methods, MethodKind::Widget),
        built_view(empty_builder(self_ty), methods).setup_parts.len() == count_kind(
            methods,
            MethodKind::Function,
        ) + count_kind(methods, MethodKind::Widget),
    decreases methods.len(),
{
    if methods.len() > 0 {
        lemma_build_consistent(self_ty, methods.drop_last());
        let v = built_view(empty_builder(self_ty), methods.drop_last());
        lemma_with_method_consistent(v, methods.last().0, methods.last().1);
    }
}

/// The entry that a method adds to the table of builtins: a `#[builtin]`
/// method under its own name, run by its entry point; a `#[function]` method
/// under the name of its entry point; any number of arguments. Other methods
/// add none.
pub open spec fn table_entry(self_ty: Seq<char>, kind: Option<MethodKind>, fname: Seq<char>) -> Option<
    (Seq<char>, Seq<char>, i32, i32),
> {
    match kind {
        Some(MethodKind::Builtin) => Some(
            (fname, builtin_trampoline_name(self_ty, fname), 0i32, -1i32),
        ),
        Some(MethodKind::Function) => Some(
            (
                function_trampoline_name(self_ty, fname),
                function_trampoline_name(self_ty, fname),
                0i32,
                -1i32,
            ),
        ),
        _ => None,
    }
}

/// The entries of the methods, in the order of the methods.
pub open spec fn builtin_table(self_ty: Seq<char>, methods: Seq<(Option<MethodKind>, Seq<char>)>) -> Seq<
    (Seq<char>, Seq<char>, i32, i32),
>
    decreases methods.len(),
{
    if methods.len() == 0 {
        Seq::empty()
    } else {
        let rest = builtin_table(self_ty, methods.drop_last());
        match table_entry(self_ty, methods.last().0, methods.last().1) {
            Some(e) => rest.push(e),
            None => rest,
        }
    }
}

/// Law: the table of builtins that `build` gathers holds one entry per
/// `#[builtin]` and `#[function]` method, in the order of the methods, and
/// nothing else (so it is empty exactly when there is no such method).
pub proof fn lemma_build_table(self_ty: Seq<char>, methods: Seq<(Option<MethodKind>, Seq<char>)>)
    ensures
        built_view(empty_builder(self_ty), methods).bintab_records == builtin_table(self_ty, methods),
    decreases methods.len(),
{
    if methods.len() > 0 {
        lemma_build_table(self_ty, methods.drop_last());
        lemma_build_consistent(self_ty, methods.drop_last());
    }
}

/// The attribute path is one of the marker identifiers `builtin`,
/// `function`, `widget`.
pub open spec fn is_marker_path(p: Option<Seq<char>>) -> bool {
    p == Some("builtin"@) || p == Some("function"@) || p == Some("widget"@)
}

/// The kind that the marker identifier `p` names.
pub open spec fn kind_named(p: Option<Seq<char>>) -> MethodKind {
    if p == Some("builtin"@) {
        MethodKind::Builtin
    } else if p == Some("function"@) {
        MethodKind::Function
    } else {
        MethodKind::Widget
    }
}

proof fn lemma_marker_texts_differ()
    ensures
        "builtin"@ != "function"@,
        "builtin"@ != "widget"@,
        "function"@ != "widget"@,
        "builtin"@.len() == 7,
        "function"@.len() == 8,
        "widget"@.len() == 6,
{
    reveal_strlit("builtin");
    reveal_strlit("function");
    reveal_strlit("widget");
    assert("builtin"@.len() != "function"@.len());
    assert("builtin"@.len() != "widget"@.len());
    assert("function"@.len() != "widget"@.len());
}

/// Law: a method's kind is that of its last marker attribute, wherever it
/// stands (the first attribute included), and that very attribute is the one
/// removed; the others stay, in order.
pub proof fn lemma_last_marker_decides(attrs: Seq<Option<Seq<char>>>, j: int)
    requires
        0 <= j < attrs.len(),
        is_marker_path(attrs[j]),
        forall|l: int| j < l < attrs.len() ==> !is_marker_path(#[trigger] attrs[l]),
    ensures
        last_marker(attrs) == Some((j, kind_named(attrs[j]))),
        method_kind(attrs) == Some(kind_named(attrs[j])),
        without_marker(attrs) == attrs.remove(j),
        without_marker(attrs).len() == attrs.len() - 1,
    decreases attrs.len(),
{
    lemma_marker_texts_differ();
    if j == attrs.len() - 1 {
        assert(marked_kind(attrs.last()) == Some(kind_named(attrs[j])));
    } else {
        assert(!is_marker_path(attrs.last()));
        assert(marked_kind(attrs.last()) is None);
        let d = attrs.drop_last();
        assert forall|l: int| j < l < d.len() implies !is_marker_path(#[trigger] d[l]) by {
            assert(d[l] == attrs[l]);
        }
        lemma_last_marker_decides(d, j);
    }
}

/// Law: a method without marker attributes has no kind, and keeps all its
/// attributes.
pub proof fn lemma_no_marker(attrs: Seq<Option<Seq<char>>>)
    requires
        forall|l: int| 0 <= l < attrs.len() ==> !is_marker_path(#[trigger] attrs[l]),
    ensures
        method_kind(attrs) is None,
        without_marker(attrs) == attrs,
    decreases attrs.len(),
{
    lemma_marker_texts_differ();
    if attrs.len() > 0 {
        assert(!is_marker_path(attrs.last()));
        let d = attrs.drop_last();
        assert forall|l: int| 0 <= l < d.len() implies !is_marker_path(#[trigger] d[l]) by {
            assert(d[l] == attrs[l]);
        }
        lemma_no_marker(d);
    }
}

/// The marked methods, in order, with their kinds.
pub open spec fn marked_methods(methods: Seq<(Option<MethodKind>, Seq<char>)>) -> Seq<(MethodKind, Seq<char>)>
    decreases methods.len(),
{
    if methods.len() == 0 {
        Seq::empty()
    } else {
        let rest = marked_methods(methods.drop_last());
        match methods.last().0 {
            Some(k) => rest.push((k, methods.last().1)),
            None => rest,
        }
    }
}

/// The names of the methods of kind `Builtin` or `Function`, in order.
pub open spec fn exported_builtin_methods(methods: Seq<(Option<MethodKind>, Seq<char>)>) -> Seq<Seq<char>>
    decreases methods.len(),
{
    if methods.len() == 0 {
        Seq::empty()
    } else {
        let rest = exported_builtin_methods(methods.drop_last());
        if methods.last().0 == Some(MethodKind::Builtin) || methods.last().0 == Some(
            MethodKind::Function,
        ) {
            rest.push(methods.last().1)
        } else {
            rest
        }
    }
}

/// The names of the methods of kind `Widget`, in order.
pub open spec fn widget_methods(methods: Seq<(Option<MethodKind>, Seq<char>)>) -> Seq<Seq<char>>
    decreases methods.len(),
{
    if methods.len() == 0 {
        Seq::empty()
    } else {
        let rest = widget_methods(methods.drop_last());
        if methods.last().0 == Some(MethodKind::Widget) {
            rest.push(methods.last().1)
        } else {
            rest
        }
    }
}

/// The widget names that the setup steps register with zle, in order.
pub open spec fn registered_widgets(parts: Seq<SetupPartView>) -> Seq<Seq<char>>
    decreases parts.len(),
{
    if parts.len() == 0 {
        Seq::empty()
    } else {
        let rest = registered_widgets(parts.drop_last());
        match parts.last() {
            SetupPartView::AddWidget(name, _) => rest.push(name),
            SetupPartView::Exec(_) => rest,
        }
    }
}

/// The method that an entry point runs.
pub open spec fn entry_point_method(t: TrampolineView) -> Seq<char> {
    match t {
        TrampolineView::Builtin(_, m, _) => m,
        TrampolineView::Widget(_, m, _) => m,
    }
}

/// Law: each entry point gathered runs the method it was gathered from, one
/// per marked method and in their order, a widget's entry point for a widget
/// method and a builtin's for the others; each builtin is listed under the
/// method it runs; each widget is listed under its own name, which is also the
/// name it is registered with zle under, in the same order.
pub proof fn lemma_entry_points_run_their_methods(
    self_ty: Seq<char>,
    methods: Seq<(Option<MethodKind>, Seq<char>)>,
)
    ensures
        ({
            let v = built_view(empty_builder(self_ty), methods);
            let m = marked_methods(methods);
            let b = exported_builtin_methods(methods);
            let w = widget_methods(methods);
            &&& v.trampolines.len() == m.len()
            &&& forall|i: int|
                0 <= i < m.len() ==> entry_point_method(#[trigger] v.trampolines[i]) == m[i].1 && (
                v.trampolines[i] is Widget <==> m[i].0 == MethodKind::Widget)
            &&& v.builtin_names.len() == b.len()
            &&& forall|i: int| 0 <= i < b.len() ==> (#[trigger] v.builtin_names[i]).0 == b[i]
            &&& v.widget_names.len() == w.len()
            &&& forall|i: int| 0 <= i < w.len() ==> #[trigger] v.widget_names[i] == (w[i], w[i])
            &&& registered_widgets(v.setup_parts) == w
        }),
    decreases methods.len(),
{
    if methods.len() > 0 {
        let d = methods.drop_last();
        lemma_entry_points_run_their_methods(self_ty, d);
        lemma_build_consistent(self_ty, d);
        let u = built_view(empty_builder(self_ty), d);
        let v = built_view(empty_builder(self_ty), methods);
        let (kind, f) = methods.last();
        let m = marked_methods(methods);
        let b = exported_builtin_methods(methods);
        let w = widget_methods(methods);
        assert(u.self_ty == self_ty);
        match kind {
            Some(MethodKind::Builtin) => {
                assert(v.trampolines == u.trampolines.push(
                    TrampolineView::Builtin(builtin_trampoline_name(self_ty, f), f, f),
                ));
                assert(v.setup_parts == u.setup_parts);
            },
            Some(MethodKind::Function) => {
                let t = function_trampoline_name(self_ty, f);
                assert(v.trampolines == u.trampolines.push(TrampolineView::Builtin(t, f, t)));
                let sp = u.setup_parts.push(SetupPartView::Exec(function_registration_script(f, t)));
                assert(v.setup_parts == sp);
                assert(sp.drop_last() =~= u.setup_parts);
            },
            Some(MethodKind::Widget) => {
                let t = builtin_trampoline_name(self_ty, f);
                assert(v.trampolines == u.trampolines.push(TrampolineView::Widget(t, f, f)));
                let sp = u.setup_parts.push(SetupPartView::AddWidget(f, t));
                assert(v.setup_parts == sp);
                assert(sp.drop_last() =~= u.setup_parts);
            },
            None => {},
        }
        assert forall|i: int| 0 <= i < m.len() implies entry_point_method(
            #[trigger] v.trampolines[i],
        ) == m[i].1 && (v.trampolines[i] is Widget <==> m[i].0 == MethodKind::Widget) by {
            if i < marked_methods(d).len() {
                assert(v.trampolines[i] == u.trampolines[i]);
                assert(m[i] == marked_methods(d)[i]);
            }
        }
        assert forall|i: int| 0 <= i < b.len() implies (#[trigger] v.builtin_names[i]).0 == b[i] by {
            if i < exported_builtin_methods(d).len() {
                assert(v.builtin_names[i] == u.builtin_names[i]);
                assert(b[i] == exported_builtin_methods(d)[i]);
            }
        }
        assert forall|i: int| 0 <= i < w.len() implies #[trigger] v.widget_names[i] == (w[i], w[i]) by {
            if i < widget_methods(d).len() {
                assert(v.widget_names[i] == u.widget_names[i]);
                assert(w[i] == widget_methods(d)[i]);
            }
        }
    }
}

} // verus!
