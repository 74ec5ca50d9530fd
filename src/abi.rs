//! Event descriptors and the Solidity declarations rebuilt from them.
//!
//! An event's ABI names its tuple-typed parameters only through their
//! internal-type annotation. This module resolves those annotations into
//! display types, synthesizes one struct declaration per distinct struct
//! name, and renders both structs and events as Solidity source text.
use vstd::prelude::*;
use vstd::string::*;

verus! {

broadcast use vstd::string::to_string_from_display_ensures_for_str;

/// The internal-type annotation that may accompany an ABI type string.
#[derive(Debug, Clone)]
pub enum InternalType {
    AddressPayable,
    Contract(String),
    Enum { contract: Option<String>, ty: String },
    Struct { contract: Option<String>, ty: String },
    Other { contract: Option<String>, ty: String },
}

/// `ty`, prefixed by `contract.` when a contract qualifier is present.
pub open spec fn qualified_name(contract: Option<String>, ty: Seq<char>) -> Seq<char> {
    match contract {
        Some(c) => c@ + "."@ + ty,
        None => ty,
    }
}

/// The display type for canonical type `ty` under annotation `internal`.
pub open spec fn resolved_type(ty: Seq<char>, internal: Option<InternalType>) -> Seq<char> {
    match internal {
        None => ty,
        Some(InternalType::AddressPayable) => "address payable"@,
        Some(InternalType::Contract(name)) => name@,
        Some(InternalType::Enum { contract, ty: name }) => qualified_name(contract, name@),
        Some(InternalType::Struct { contract, ty: name }) => qualified_name(contract, name@),
        Some(InternalType::Other { contract, ty: name }) => qualified_name(contract, name@),
    }
}

fn qualify(contract: &Option<String>, ty: &String) -> (r: String)
    ensures
        r@ == qualified_name(*contract, ty@),
{
    match contract {
        Some(c) => {
            let mut r = c.clone();
            r.append(".");
            r.append(ty.as_str());
            r
        },
        None => ty.clone(),
    }
}

/// Resolves the display type of a parameter from its canonical type and its
/// optional internal-type annotation.
pub fn resolve_type(ty: &str, internal_type: &Option<InternalType>) -> (r: String)
    ensures
        r@ == resolved_type(ty@, *internal_type),
{
    match internal_type {
        None => ty.to_string(),
        Some(InternalType::AddressPayable) => "address payable".to_string(),
        Some(InternalType::Contract(name)) => name.clone(),
        Some(InternalType::Enum { contract, ty: name }) => qualify(contract, name),
        Some(InternalType::Struct { contract, ty: name }) => qualify(contract, name),
        Some(InternalType::Other { contract, ty: name }) => qualify(contract, name),
    }
}

/// One parameter of an event, or one component of a tuple parameter.
#[derive(Debug)]
pub struct EventParam {
    pub name: String,
    pub ty: String,
    pub indexed: bool,
    pub internal_type: Option<InternalType>,
    pub components: Vec<EventParam>,
}

/// An event descriptor: its name and its ordered inputs.
#[derive(Debug)]
pub struct Event {
    pub name: String,
    pub inputs: Vec<EventParam>,
}

/// A synthesized Solidity struct declaration.
#[derive(Debug, Clone)]
pub struct SolStruct {
    pub name: String,
    pub fields: Vec<SolField>,
}

/// One field of a synthesized struct.
#[derive(Debug, Clone)]
pub struct SolField {
    pub name: String,
    pub ty: String,
}

/// A Solidity event declaration.
#[derive(Debug, Clone)]
pub struct SolEvent {
    pub name: String,
    pub params: Vec<SolEventParam>,
}

/// One parameter of a Solidity event declaration.
#[derive(Debug, Clone)]
pub struct SolEventParam {
    pub name: String,
    pub ty: String,
    pub indexed: bool,
}

/// What a struct field stands for: its name and display type.
pub struct FieldModel {
    pub name: Seq<char>,
    pub ty: Seq<char>,
}

/// What a struct declaration stands for.
pub struct StructModel {
    pub name: Seq<char>,
    pub fields: Seq<FieldModel>,
}

/// What an event parameter declaration stands for.
pub struct ParamModel {
    pub name: Seq<char>,
    pub ty: Seq<char>,
    pub indexed: bool,
}

/// What an event declaration stands for.
pub struct EventModel {
    pub name: Seq<char>,
    pub params: Seq<ParamModel>,
}

impl View for SolField {
    type V = FieldModel;

    open spec fn view(&self) -> FieldModel {
        FieldModel { name: self.name@, ty: self.ty@ }
    }
}

impl View for SolStruct {
    type V = StructModel;

    open spec fn view(&self) -> StructModel {
        StructModel { name: self.name@, fields: self.fields@.map_values(|f: SolField| f@) }
    }
}

impl View for SolEventParam {
    type V = ParamModel;

    open spec fn view(&self) -> ParamModel {
        ParamModel { name: self.name@, ty: self.ty@, indexed: self.indexed }
    }
}

impl View for SolEvent {
    type V = EventModel;

    open spec fn view(&self) -> EventModel {
        EventModel { name: self.name@, params: self.params@.map_values(|p: SolEventParam| p@) }
    }
}

/// The canonical type string of a tuple.
pub open spec fn is_tuple(ty: Seq<char>) -> bool {
    ty == "tuple"@
}

/// The struct name that a parameter declares: present only for a tuple
/// annotated as a struct.
pub open spec fn declared_struct(p: EventParam) -> Option<Seq<char>> {
    if is_tuple(p.ty@) {
        match p.internal_type {
            Some(InternalType::Struct { ty, .. }) => Some(ty@),
            _ => None,
        }
    } else {
        None
    }
}

/// A struct field built from a tuple component.
pub open spec fn field_of(c: EventParam) -> FieldModel {
    FieldModel { name: c.name@, ty: resolved_type(c.ty@, c.internal_type) }
}

/// The struct declared by parameter `p` under name `name`.
pub open spec fn struct_of(p: EventParam, name: Seq<char>) -> StructModel {
    StructModel { name, fields: p.components@.map_values(|c: EventParam| field_of(c)) }
}

/// Whether `structs` already holds a struct called `name`.
pub open spec fn has_struct(structs: Seq<StructModel>, name: Seq<char>) -> bool {
    exists|i: int| 0 <= i < structs.len() && #[trigger] structs[i].name == name
}

/// The collection after looking at one more parameter: a struct it declares
/// is added unless one of the same name is already there.
pub open spec fn collect_step(structs: Seq<StructModel>, p: EventParam) -> Seq<StructModel> {
    match declared_struct(p) {
        Some(name) => if has_struct(structs, name) {
            structs
        } else {
            structs.push(struct_of(p, name))
        },
        None => structs,
    }
}

/// The collection after looking at each of `params` in order.
pub open spec fn collected(structs: Seq<StructModel>, params: Seq<EventParam>) -> Seq<StructModel>
    decreases params.len(),
{
    if params.len() == 0 {
        structs
    } else {
        collect_step(collected(structs, params.drop_last()), params.last())
    }
}

/// The structs synthesized from a whole batch of events.
pub open spec fn batch_structs(events: Seq<Event>) -> Seq<StructModel>
    decreases events.len(),
{
    if events.len() == 0 {
        Seq::empty()
    } else {
        collected(batch_structs(events.drop_last()), events.last().inputs@)
    }
}

/// The display type of a top-level event parameter: only a tuple goes
/// through its annotation.
pub open spec fn param_type(p: EventParam) -> Seq<char> {
    if is_tuple(p.ty@) {
        resolved_type(p.ty@, p.internal_type)
    } else {
        p.ty@
    }
}

/// The declaration parameter rendered from an event input.
pub open spec fn param_of(p: EventParam) -> ParamModel {
    ParamModel { name: p.name@, ty: param_type(p), indexed: p.indexed }
}

/// The event declaration rendered from an event descriptor.
pub open spec fn event_of(e: Event) -> EventModel {
    EventModel { name: e.name@, params: e.inputs@.map_values(|p: EventParam| param_of(p)) }
}

fn is_tuple_type(ty: &String) -> (r: bool)
    ensures
        r == is_tuple(ty@),
{
    let tuple = String::from_str("tuple");
    *ty == tuple
}

fn find_struct(structs: &Vec<SolStruct>, name: &String) -> (r: bool)
    ensures
        r == has_struct(structs@.map_values(|s: SolStruct| s@), name@),
{
    let ghost models = structs@.map_values(|s: SolStruct| s@);
    let mut i: usize = 0;
    while i < structs.len()
        invariant
            i <= structs.len(),
            models == structs@.map_values(|s: SolStruct| s@),
            forall|j: int| 0 <= j < i ==> models[j].name != name@,
        decreases structs.len() - i,
    {
        if structs[i].name == *name {
            assert(models[i as int].name == name@);
            return true;
        }
        i += 1;
    }
    false
}

fn field_from(c: &EventParam) -> (r: SolField)
    ensures
        r@ == field_of(*c),
{
    SolField { name: c.name.clone(), ty: resolve_type(c.ty.as_str(), &c.internal_type) }
}

fn struct_from(p: &EventParam, name: &String) -> (r: SolStruct)
    ensures
        r@ == struct_of(*p, name@),
{
    let mut fields: Vec<SolField> = Vec::new();
    let mut i: usize = 0;
    while i < p.components.len()
        invariant
            i <= p.components.len(),
            fields@.len() == i,
            forall|j: int| 0 <= j < i ==> (#[trigger] fields@[j])@ == field_of(p.components@[j]),
        decreases p.components.len() - i,
    {
        fields.push(field_from(&p.components[i]));
        i += 1;
    }
    let r = SolStruct { name: name.clone(), fields };
    assert(r@.fields =~= struct_of(*p, name@).fields);
    r
}

/// Adds to `structs` the struct declared by each of `params`, in order,
/// skipping a name that is already present.
pub fn collect_structs(params: &Vec<EventParam>, structs: &mut Vec<SolStruct>)
    ensures
        final(structs)@.map_values(|s: SolStruct| s@) == collected(
            old(structs)@.map_values(|s: SolStruct| s@),
            params@,
        ),
{
    let ghost start = structs@.map_values(|s: SolStruct| s@);
    let mut i: usize = 0;
    while i < params.len()
        invariant
            i <= params.len(),
            structs@.map_values(|s: SolStruct| s@) == collected(start, params@.take(i as int)),
        decreases params.len() - i,
    {
        let p = &params[i];
        assert(params@.take(i + 1).drop_last() =~= params@.take(i as int));
        if is_tuple_type(&p.ty) {
            match &p.internal_type {
                Some(InternalType::Struct { ty: name, .. }) => {
                    if !find_struct(structs, name) {
                        let s = struct_from(p, name);
                        structs.push(s);
                        assert(structs@.map_values(|s: SolStruct| s@) =~= collected(
                            start,
                            params@.take(i as int),
                        ).push(s@));
                    }
                },
                _ => {},
            }
        }
        i += 1;
    }
    assert(params@.take(params.len() as int) =~= params@);
}

fn event_param_from(p: &EventParam) -> (r: SolEventParam)
    ensures
        r@ == param_of(*p),
{
    let ty = if is_tuple_type(&p.ty) {
        resolve_type(p.ty.as_str(), &p.internal_type)
    } else {
        p.ty.clone()
    };
    SolEventParam { name: p.name.clone(), ty, indexed: p.indexed }
}

/// Renders one event descriptor as an event declaration, keeping the order
/// and the indexed flag of its inputs.
pub fn render_event(event: &Event) -> (r: SolEvent)
    ensures
        r@ == event_of(*event),
{
    let mut params: Vec<SolEventParam> = Vec::new();
    let mut i: usize = 0;
    while i < event.inputs.len()
        invariant
            i <= event.inputs.len(),
            params@.len() == i,
            forall|j: int| 0 <= j < i ==> (#[trigger] params@[j])@ == param_of(event.inputs@[j]),
        decreases event.inputs.len() - i,
    {
        params.push(event_param_from(&event.inputs[i]));
        i += 1;
    }
    let r = SolEvent { name: event.name.clone(), params };
    assert(r@.params =~= event_of(*event).params);
    r
}

/// Synthesizes the structs of a whole batch of events (each struct name
/// once, first definition kept, in first-seen order) and renders each event,
/// in the order given.
pub fn process_events(events: &Vec<Event>) -> (r: (Vec<SolStruct>, Vec<SolEvent>))
    ensures
        r.0@.map_values(|s: SolStruct| s@) == batch_structs(events@),
        r.1@.map_values(|e: SolEvent| e@) == events@.map_values(|e: Event| event_of(e)),
{
    let mut structs: Vec<SolStruct> = Vec::new();
    let mut processed: Vec<SolEvent> = Vec::new();
    let mut i: usize = 0;
    assert(structs@.map_values(|s: SolStruct| s@) =~= batch_structs(events@.take(0)));
    while i < events.len()
        invariant
            i <= events.len(),
            structs@.map_values(|s: SolStruct| s@) == batch_structs(events@.take(i as int)),
            processed@.len() == i,
            forall|j: int| 0 <= j < i ==> (#[trigger] processed@[j])@ == event_of(events@[j]),
        decreases events.len() - i,
    {
        assert(events@.take(i + 1).drop_last() =~= events@.take(i as int));
        collect_structs(&events[i].inputs, &mut structs);
        processed.push(render_event(&events[i]));
        i += 1;
    }
    assert(events@.take(events.len() as int) =~= events@);
    assert(processed@.map_values(|e: SolEvent| e@) =~= events@.map_values(|e: Event| event_of(e)));
    (structs, processed)
}

/// One struct field line: four spaces, type, name, semicolon, newline.
pub open spec fn field_text(f: FieldModel) -> Seq<char> {
    "    "@ + f.ty + " "@ + f.name + ";\n"@
}

/// The field lines of a struct, in order.
pub open spec fn fields_text(fields: Seq<FieldModel>) -> Seq<char>
    decreases fields.len(),
{
    if fields.len() == 0 {
        Seq::empty()
    } else {
        fields_text(fields.drop_last()) + field_text(fields.last())
    }
}

/// The Solidity text of a struct declaration, without a trailing newline.
pub open spec fn struct_text(s: StructModel) -> Seq<char> {
    "struct "@ + s.name + " {\n"@ + fields_text(s.fields) + "}"@
}

/// One event parameter: type, ` indexed` when indexed, a space, name.
pub open spec fn param_text(p: ParamModel) -> Seq<char> {
    p.ty + (if p.indexed {
        " indexed"@
    } else {
        Seq::empty()
    }) + " "@ + p.name
}

/// The parameters of an event, separated by a comma and a space.
pub open spec fn params_text(params: Seq<ParamModel>) -> Seq<char>
    decreases params.len(),
{
    if params.len() == 0 {
        Seq::empty()
    } else if params.len() == 1 {
        param_text(params[0])
    } else {
        params_text(params.drop_last()) + ", "@ + param_text(params.last())
    }
}

/// The Solidity text of an event declaration, on one line.
pub open spec fn event_text(e: EventModel) -> Seq<char> {
    "event "@ + e.name + "("@ + params_text(e.params) + ");"@
}

impl SolStruct {
    /// The struct as a Solidity declaration: one field per line, indented by
    /// four spaces, closing brace on its own line.
    pub fn to_string(&self) -> (r: String)
        ensures
            r@ == struct_text(self@),
    {
        let ghost fields = self@.fields;
        let mut out = String::from_str("struct ");
        out.append(self.name.as_str());
        out.append(" {\n");
        let mut i: usize = 0;
        while i < self.fields.len()
            invariant
                i <= self.fields.len(),
                fields == self.fields@.map_values(|f: SolField| f@),
                out@ == "struct "@ + self.name@ + " {\n"@ + fields_text(fields.take(i as int)),
            decreases self.fields.len() - i,
        {
            let f = &self.fields[i];
            assert(fields.take(i + 1).drop_last() =~= fields.take(i as int));
            out.append("    ");
            out.append(f.ty.as_str());
            out.append(" ");
            out.append(f.name.as_str());
            out.append(";\n");
            i += 1;
        }
        assert(fields.take(self.fields.len() as int) =~= fields);
        out.append("}");
        out
    }
}

fn param_string(p: &SolEventParam) -> (r: String)
    ensures
        r@ == param_text(p@),
{
    let mut out = p.ty.clone();
    if p.indexed {
        out.append(" indexed");
    }
    out.append(" ");
    out.append(p.name.as_str());
    proof {
        if !p.indexed {
            assert(p.ty@ + Seq::<char>::empty() =~= p.ty@);
        }
    }
    out
}

impl SolEvent {
    /// The event as a one-line Solidity declaration.
    pub fn to_string(&self) -> (r: String)
        ensures
            r@ == event_text(self@),
    {
        let ghost params = self@.params;
        let mut joined = String::new();
        let mut i: usize = 0;
        while i < self.params.len()
            invariant
                i <= self.params.len(),
                params == self.params@.map_values(|p: SolEventParam| p@),
                joined@ == params_text(params.take(i as int)),
            decreases self.params.len() - i,
        {
            assert(params.take(i + 1).drop_last() =~= params.take(i as int));
            if i > 0 {
                joined.append(", ");
            } else {
                assert(joined@ + param_text(params[0]) =~= param_text(params[0]));
            }
            let text = param_string(&self.params[i]);
            joined.append(text.as_str());
            i += 1;
        }
        assert(params.take(self.params.len() as int) =~= params);
        let mut out = String::from_str("event ");
        out.append(self.name.as_str());
        out.append("(");
        out.append(joined.as_str());
        out.append(");");
        out
    }
}

} // verus!
