//! What the headless runner offers to callers: its functions, what they take and
//! what they give.

use vstd::prelude::*;

verus! {

/// The type of a field.
#[derive(Debug, Clone, Copy, PartialEq, Eq, Structural)]
pub enum TypeSchema {
    String,
    Bool,
    U64,
}

/// A field of a function's input or output.
#[derive(Debug)]
pub struct FieldSchema {
    pub name: &'static str,
    pub ty: TypeSchema,
    pub comment: &'static str,
    pub required: bool,
}

/// What a [`FieldSchema`] holds.
pub struct FieldView {
    pub name: Seq<char>,
    pub ty: TypeSchema,
    pub comment: Seq<char>,
    pub required: bool,
}

impl View for FieldSchema {
    type V = FieldView;

    open spec fn view(&self) -> FieldView {
        FieldView {
            name: self.name@,
            ty: self.ty,
            comment: self.comment@,
            required: self.required,
        }
    }
}

/// A function that callers can call.
#[derive(Debug)]
pub struct ControllerSchema {
    pub namespace: &'static str,
    pub function: &'static str,
    pub description: &'static str,
    pub inputs: Vec<FieldSchema>,
    pub outputs: Vec<FieldSchema>,
}

/// What a [`ControllerSchema`] holds.
pub struct SchemaView {
    pub namespace: Seq<char>,
    pub function: Seq<char>,
    pub description: Seq<char>,
    pub inputs: Seq<FieldView>,
    pub outputs: Seq<FieldView>,
}

/// What a list of fields holds.
pub open spec fn field_views(fields: Seq<FieldSchema>) -> Seq<FieldView> {
    Seq::new(fields.len(), |i: int| fields[i]@)
}

impl View for ControllerSchema {
    type V = SchemaView;

    open spec fn view(&self) -> SchemaView {
        SchemaView {
            namespace: self.namespace@,
            function: self.function@,
            description: self.description@,
            inputs: field_views(self.inputs@),
            outputs: field_views(self.outputs@),
        }
    }
}

/// Which function handles a call.
#[derive(Debug, Clone, Copy, PartialEq, Eq, Structural)]
pub enum Handler {
    Start,
    Stop,
}

/// A function that callers can call, and what handles the call.
#[derive(Debug)]
pub struct RegisteredController {
    pub schema: ControllerSchema,
    pub handler: Handler,
}

/// A field that is always there.
pub open spec fn field(name: Seq<char>, ty: TypeSchema, comment: Seq<char>) -> FieldView {
    FieldView { name, ty, comment, required: true }
}

/// The function that starts a session.
pub open spec fn start_schema() -> SchemaView {
    SchemaView {
        namespace: "meet_headless"@,
        function: "start"@,
        description: "Launch a headless chromium, join the Meet URL as a guest, and start watching live captions. The session is keyed by request_id and feeds captions into the matching meet_agent session."@,
        inputs: seq![
            field(
                "request_id"@,
                TypeSchema::String,
                "Caller-minted UUID. Used as the session key so push_caption / stop calls find it again."@,
            ),
            field(
                "meet_url"@,
                TypeSchema::String,
                "Meet call URL (https://meet.google.com/<code>). Validated."@,
            ),
            field(
                "display_name"@,
                TypeSchema::String,
                "Guest name typed into the 'Your name' input on the lobby page. Trimmed, length-capped to 64 chars."@,
            ),
        ],
        outputs: seq![
            field(
                "ok"@,
                TypeSchema::Bool,
                "True when chromium booted and the session is live."@,
            ),
            field("request_id"@, TypeSchema::String, "Echoed session key."@),
            field("meet_url"@, TypeSchema::String, "Echoed (normalised) Meet URL."@),
        ],
    }
}

/// The function that stops a session.
pub open spec fn stop_schema() -> SchemaView {
    SchemaView {
        namespace: "meet_headless"@,
        function: "stop"@,
        description: "Stop a headless Meet session: shut down the caption watcher, kill the chromium child process, and clean up the ephemeral profile dir."@,
        inputs: seq![field("request_id"@, TypeSchema::String, "Session key from start."@)],
        outputs: seq![
            field(
                "ok"@,
                TypeSchema::Bool,
                "True when the session existed and was stopped."@,
            ),
            field("request_id"@, TypeSchema::String, "Echoed session key."@),
            field(
                "captions_seen"@,
                TypeSchema::U64,
                "Total caption rows the watcher forwarded into the meet_agent session."@,
            ),
        ],
    }
}

fn required(name: &'static str, ty: TypeSchema, comment: &'static str) -> (r: FieldSchema)
    ensures
        r@ == field(name@, ty, comment@),
{
    FieldSchema { name, ty, comment, required: true }
}

fn schema_start() -> (r: ControllerSchema)
    ensures
        r@ == start_schema(),
{
    let mut inputs: Vec<FieldSchema> = Vec::new();
    inputs.push(
        required(
            "request_id",
            TypeSchema::String,
            "Caller-minted UUID. Used as the session key so push_caption / stop calls find it again.",
        ),
    );
    inputs.push(
        required(
            "meet_url",
            TypeSchema::String,
            "Meet call URL (https://meet.google.com/<code>). Validated.",
        ),
    );
    inputs.push(
        required(
            "display_name",
            TypeSchema::String,
            "Guest name typed into the 'Your name' input on the lobby page. Trimmed, length-capped to 64 chars.",
        ),
    );
    let mut outputs: Vec<FieldSchema> = Vec::new();
    outputs.push(
        required("ok", TypeSchema::Bool, "True when chromium booted and the session is live."),
    );
    outputs.push(required("request_id", TypeSchema::String, "Echoed session key."));
    outputs.push(required("meet_url", TypeSchema::String, "Echoed (normalised) Meet URL."));
    assert(field_views(inputs@) =~= start_schema().inputs);
    assert(field_views(outputs@) =~= start_schema().outputs);
    ControllerSchema {
        namespace: "meet_headless",
        function: "start",
        description: "Launch a headless chromium, join the Meet URL as a guest, and start watching live captions. The session is keyed by request_id and feeds captions into the matching meet_agent session.",
        inputs,
        outputs,
    }
}

fn schema_stop() -> (r: ControllerSchema)
    ensures
        r@ == stop_schema(),
{
    let mut inputs: Vec<FieldSchema> = Vec::new();
    inputs.push(required("request_id", TypeSchema::String, "Session key from start."));
    let mut outputs: Vec<FieldSchema> = Vec::new();
    outputs.push(
        required("ok", TypeSchema::Bool, "True when the session existed and was stopped."),
    );
    outputs.push(required("request_id", TypeSchema::String, "Echoed session key."));
    outputs.push(
        required(
            "captions_seen",
            TypeSchema::U64,
            "Total caption rows the watcher forwarded into the meet_agent session.",
        ),
    );
    assert(field_views(inputs@) =~= stop_schema().inputs);
    assert(field_views(outputs@) =~= stop_schema().outputs);
    ControllerSchema {
        namespace: "meet_headless",
        function: "stop",
        description: "Stop a headless Meet session: shut down the caption watcher, kill the chromium child process, and clean up the ephemeral profile dir.",
        inputs,
        outputs,
    }
}

/// What callers can call.
pub fn all_controller_schemas() -> (r: Vec<ControllerSchema>)
    ensures
        r@.len() == 2,
        r@[0]@ == start_schema(),
        r@[1]@ == stop_schema(),
{
    let mut all: Vec<ControllerSchema> = Vec::new();
    all.push(schema_start());
    all.push(schema_stop());
    all
}

/// What callers can call, each with its handler, in the order of
/// [`all_controller_schemas`].
pub fn all_registered_controllers() -> (r: Vec<RegisteredController>)
    ensures
        r@.len() == 2,
        r@[0].schema@ == start_schema() && r@[0].handler is Start,
        r@[1].schema@ == stop_schema() && r@[1].handler is Stop,
{
    let mut all: Vec<RegisteredController> = Vec::new();
    all.push(RegisteredController { schema: schema_start(), handler: Handler::Start });
    all.push(RegisteredController { schema: schema_stop(), handler: Handler::Stop });
    all
}

// ---------------------------------------------------------------------------
// Laws
// ---------------------------------------------------------------------------

/// What a caller must give and what it gets: to start, the name of the session, the
/// address of the call and the name to show; to stop, the name of the session. Each
/// answer says whether it went well and which session it is about; that to a start
/// gives the address again, and that to a stop the number of captions.
pub proof fn law_fields_of_the_calls(i: int)
    ensures
        start_schema().namespace == "meet_headless"@ && start_schema().function == "start"@,
        stop_schema().namespace == "meet_headless"@ && stop_schema().function == "stop"@,
        start_schema().inputs.len() == 3 && start_schema().outputs.len() == 3,
        stop_schema().inputs.len() == 1 && stop_schema().outputs.len() == 3,
        0 <= i < 3 ==> start_schema().inputs[i].required && start_schema().inputs[i].ty
            == TypeSchema::String && start_schema().inputs[i].name == if i == 0 {
            "request_id"@
        } else if i == 1 {
            "meet_url"@
        } else {
            "display_name"@
        },
        0 <= i < 3 ==> start_schema().outputs[i].required && stop_schema().outputs[i].required,
        start_schema().outputs[0].name == "ok"@ && start_schema().outputs[0].ty == TypeSchema::Bool,
        start_schema().outputs[1].name == "request_id"@ && start_schema().outputs[1].ty
            == TypeSchema::String,
        start_schema().outputs[2].name == "meet_url"@ && start_schema().outputs[2].ty
            == TypeSchema::String,
        stop_schema().inputs[0].required && stop_schema().inputs[0].name == "request_id"@
            && stop_schema().inputs[0].ty == TypeSchema::String,
        stop_schema().outputs[0].name == "ok"@ && stop_schema().outputs[0].ty == TypeSchema::Bool,
        stop_schema().outputs[1].name == "request_id"@ && stop_schema().outputs[1].ty
            == TypeSchema::String,
        stop_schema().outputs[2].name == "captions_seen"@ && stop_schema().outputs[2].ty
            == TypeSchema::U64,
{
}

} // verus!
