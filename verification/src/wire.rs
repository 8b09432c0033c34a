//! The shape of each message as a JSON document.
//!
//! Every payload is one object. Its `type` member tells the messages apart;
//! requests, acknowledgements and responses also carry the `uuid` of the
//! request they belong to. A response's `type` is the kind of its build
//! status. Binary content travels as base64 text.
//!
//! | `type`            | further members                                   |
//! |-------------------|---------------------------------------------------|
//! | `Request`         | `uuid`, `files`: object of path to base64 text    |
//! | `Acknowledge`     | `uuid`, `accepted`, `slotsAvailable`              |
//! | `ValidationError` | `uuid`, `message`                                 |
//! | `LintExit`        | `uuid`, `code`, `stdout`, `stderr`                |
//! | `BuildExit`       | `uuid`, `code`, `stdout`, `stderr`                |
//! | `LowLevelError`   | `uuid`                                            |
//! | `Success`         | `uuid`, `archive`, `lintOutput`, `buildOutput`    |
//! | `Heartbeat`       |                                                   |

use vstd::prelude::*;
use crate::build_context::{
    distinct_paths,
    lemma_position_of,
    with_file,
    BuildContext,
    Files,
};
use crate::build_status::{BuildStatus, OutputsView, StatusView, WebpackOutputs};
use crate::document::{member, members_of, Json, JsonView, Members};
use crate::encoding::Base64Encoded;
use crate::packet::{Packet, PacketView, QueueInfo};
use crate::tagged::{format_identifier, parse_identifier, uuid_parsed, uuid_text, Tagged};

verus! {

/// A payload that has the shape of no message.
#[derive(Debug, Clone, Copy, PartialEq, Eq, Structural)]
pub struct DecodeError;

/// The document of a pair of output streams.
pub open spec fn outputs_document(outputs: OutputsView) -> JsonView {
    JsonView::Object(
        seq![
            ("stdout"@, JsonView::Text(outputs.stdout)),
            ("stderr"@, JsonView::Text(outputs.stderr)),
        ],
    )
}

/// The members of the `files` object: one text per path, in the order of the
/// files.
pub open spec fn file_members(files: Files) -> Members {
    Seq::new(files.len(), |i: int| (files[i].0, JsonView::Text(files[i].1)))
}

/// The `type` of a response that reports `status`.
pub open spec fn status_kind(status: StatusView) -> Seq<char> {
    match status {
        StatusView::ValidationError { .. } => "ValidationError"@,
        StatusView::LintExit { .. } => "LintExit"@,
        StatusView::BuildExit { .. } => "BuildExit"@,
        StatusView::LowLevelError => "LowLevelError"@,
        StatusView::Success { .. } => "Success"@,
    }
}

/// The members that follow `uuid` and `type` in a response.
pub open spec fn status_members(status: StatusView) -> Members {
    match status {
        StatusView::ValidationError { message } => seq![("message"@, JsonView::Text(message))],
        StatusView::LintExit { code, outputs } => seq![
            ("code"@, JsonView::Number(code as int)),
            ("stdout"@, JsonView::Text(outputs.stdout)),
            ("stderr"@, JsonView::Text(outputs.stderr)),
        ],
        StatusView::BuildExit { code, outputs } => seq![
            ("code"@, JsonView::Number(code as int)),
            ("stdout"@, JsonView::Text(outputs.stdout)),
            ("stderr"@, JsonView::Text(outputs.stderr)),
        ],
        StatusView::LowLevelError => Seq::empty(),
        StatusView::Success { archive, lint_output, build_output } => seq![
            ("archive"@, JsonView::Text(archive)),
            ("lintOutput"@, outputs_document(lint_output)),
            ("buildOutput"@, outputs_document(build_output)),
        ],
    }
}

/// The document of a build status on its own: its kind under `type`, then
/// its members. A response is this document with the `uuid` in front.
pub open spec fn status_document(status: StatusView) -> JsonView {
    JsonView::Object(seq![("type"@, JsonView::Text(status_kind(status)))] + status_members(status))
}

/// The two members every message but the heartbeat begins with.
pub open spec fn heading(uuid: u128, kind: Seq<char>) -> Members {
    seq![("uuid"@, JsonView::Text(uuid_text(uuid))), ("type"@, JsonView::Text(kind))]
}

/// The document that is written for a packet.
pub open spec fn document_of(packet: PacketView) -> JsonView {
    match packet {
        PacketView::Request { uuid, files } => JsonView::Object(
            heading(uuid, "Request"@) + seq![("files"@, JsonView::Object(file_members(files)))],
        ),
        PacketView::Acknowledge { uuid, info } => JsonView::Object(
            heading(uuid, "Acknowledge"@) + seq![
                ("accepted"@, JsonView::Bool(info.accepted)),
                ("slotsAvailable"@, JsonView::Number(info.slots_available as int)),
            ],
        ),
        PacketView::Response { uuid, status } => JsonView::Object(
            heading(uuid, status_kind(status)) + status_members(status),
        ),
        PacketView::Heartbeat => JsonView::Object(seq![("type"@, JsonView::Text("Heartbeat"@))]),
    }
}

/// The files that the members of a `files` object stand for: every member
/// must be a text; where a path occurs again, the later content replaces the
/// earlier. `None` if some member is not a text.
pub open spec fn files_of(members: Members) -> Option<Files>
    decreases members.len(),
{
    if members.len() == 0 {
        Some(Seq::empty())
    } else {
        match (files_of(members.drop_last()), members.last().1) {
            (Some(files), JsonView::Text(content)) => Some(
                with_file(files, members.last().0, content),
            ),
            _ => None,
        }
    }
}

/// The output streams that a document holds in `stdout` and `stderr`.
pub open spec fn outputs_of(doc: JsonView) -> Option<OutputsView> {
    match (doc.text_at("stdout"@), doc.text_at("stderr"@)) {
        (Some(stdout), Some(stderr)) => Some(OutputsView { stdout, stderr }),
        _ => None,
    }
}

/// The output streams that the member called `key` holds.
pub open spec fn outputs_at(doc: JsonView, key: Seq<char>) -> Option<OutputsView> {
    match doc.field(key) {
        Some(inner) => outputs_of(inner),
        None => None,
    }
}

/// The exit code that a document holds in `code`: a whole number in the
/// range of exit codes.
pub open spec fn code_of(doc: JsonView) -> Option<i32> {
    match doc.number_at("code"@) {
        Some(n) => if i32::MIN <= n <= i32::MAX {
            Some(n as i32)
        } else {
            None
        },
        None => None,
    }
}

/// The build status that a document of the given `type` holds.
pub open spec fn status_of(kind: Seq<char>, doc: JsonView) -> Option<StatusView> {
    if kind == "ValidationError"@ {
        match doc.text_at("message"@) {
            Some(message) => Some(StatusView::ValidationError { message }),
            None => None,
        }
    } else if kind == "LintExit"@ {
        match (code_of(doc), outputs_of(doc)) {
            (Some(code), Some(outputs)) => Some(StatusView::LintExit { code, outputs }),
            _ => None,
        }
    } else if kind == "BuildExit"@ {
        match (code_of(doc), outputs_of(doc)) {
            (Some(code), Some(outputs)) => Some(StatusView::BuildExit { code, outputs }),
            _ => None,
        }
    } else if kind == "LowLevelError"@ {
        Some(StatusView::LowLevelError)
    } else if kind == "Success"@ {
        match (
            doc.text_at("archive"@),
            outputs_at(doc, "lintOutput"@),
            outputs_at(doc, "buildOutput"@),
        ) {
            (Some(archive), Some(lint_output), Some(build_output)) => Some(
                StatusView::Success { archive, lint_output, build_output },
            ),
            _ => None,
        }
    } else {
        None
    }
}

/// The identifier that a document holds in `uuid`.
pub open spec fn identifier_of(doc: JsonView) -> Option<u128> {
    match doc.text_at("uuid"@) {
        Some(text) => uuid_parsed(text),
        None => None,
    }
}

/// The document of a build context on its own. A request is this document
/// with `uuid` and `type` in front.
pub open spec fn context_document(files: Files) -> JsonView {
    JsonView::Object(seq![("files"@, JsonView::Object(file_members(files)))])
}

/// The document of a bare identifier: a tagged value whose payload has no
/// members.
pub open spec fn identifier_document(uuid: u128) -> JsonView {
    JsonView::Object(seq![("uuid"@, JsonView::Text(uuid_text(uuid)))])
}

/// The files that a document holds in `files`.
pub open spec fn context_of(doc: JsonView) -> Option<Files> {
    match doc.field("files"@) {
        Some(JsonView::Object(members)) => files_of(members),
        _ => None,
    }
}

/// The request that a document with identifier `uuid` holds.
pub open spec fn request_of(uuid: u128, doc: JsonView) -> Option<PacketView> {
    match context_of(doc) {
        Some(files) => Some(PacketView::Request { uuid, files }),
        None => None,
    }
}

/// The acknowledgement that a document with identifier `uuid` holds.
pub open spec fn acknowledgement_of(uuid: u128, doc: JsonView) -> Option<PacketView> {
    match (doc.flag_at("accepted"@), doc.number_at("slotsAvailable"@)) {
        (Some(accepted), Some(n)) => if 0 <= n <= usize::MAX {
            Some(
                PacketView::Acknowledge {
                    uuid,
                    info: QueueInfo { accepted, slots_available: n as usize },
                },
            )
        } else {
            None
        },
        _ => None,
    }
}

/// The packet that a document of the given `type` holds under the
/// identifier `uuid`: a request, an acknowledgement, or the response whose
/// status is of that kind.
pub open spec fn tagged_packet_of(uuid: u128, kind: Seq<char>, doc: JsonView) -> Option<
    PacketView,
> {
    if kind == "Request"@ {
        request_of(uuid, doc)
    } else if kind == "Acknowledge"@ {
        acknowledgement_of(uuid, doc)
    } else {
        match status_of(kind, doc) {
            Some(status) => Some(PacketView::Response { uuid, status }),
            None => None,
        }
    }
}

/// The packet that a document stands for, or `None` if the document has the
/// shape of no message. Members that a message does not need are ignored.
pub open spec fn packet_of(doc: JsonView) -> Option<PacketView> {
    match doc.text_at("type"@) {
        None => None,
        Some(kind) => if kind == "Heartbeat"@ {
            Some(PacketView::Heartbeat)
        } else {
            match identifier_of(doc) {
                None => None,
                Some(uuid) => tagged_packet_of(uuid, kind, doc),
            }
        },
    }
}

/// A packet whose document can be read back: its files have distinct paths,
/// and its identifier is one whose text parses to itself, as the text of
/// every identifier does.
pub open spec fn well_formed(packet: PacketView) -> bool {
    match packet {
        PacketView::Request { uuid, files } => uuid_parsed(uuid_text(uuid)) == Some(uuid)
            && distinct_paths(files),
        PacketView::Acknowledge { uuid, .. } => uuid_parsed(uuid_text(uuid)) == Some(uuid),
        PacketView::Response { uuid, .. } => uuid_parsed(uuid_text(uuid)) == Some(uuid),
        PacketView::Heartbeat => true,
    }
}

/// The names of the members and of the message types, as characters.
proof fn lemma_names()
    ensures
        "uuid"@ == seq!['u', 'u', 'i', 'd'],
        "type"@ == seq!['t', 'y', 'p', 'e'],
        "files"@ == seq!['f', 'i', 'l', 'e', 's'],
        "accepted"@.len() == 8 && "accepted"@[0] == 'a',
        "slotsAvailable"@.len() == 14,
        "message"@.len() == 7,
        "code"@ == seq!['c', 'o', 'd', 'e'],
        "stdout"@ == seq!['s', 't', 'd', 'o', 'u', 't'],
        "stderr"@ == seq!['s', 't', 'd', 'e', 'r', 'r'],
        "archive"@.len() == 7 && "archive"@[0] == 'a',
        "lintOutput"@.len() == 10,
        "buildOutput"@.len() == 11,
        "Request"@.len() == 7 && "Request"@[0] == 'R',
        "Acknowledge"@.len() == 11,
        "Heartbeat"@.len() == 9 && "Heartbeat"@[0] == 'H',
        "ValidationError"@.len() == 15,
        "LintExit"@.len() == 8,
        "BuildExit"@.len() == 9 && "BuildExit"@[0] == 'B',
        "LowLevelError"@.len() == 13,
        "Success"@.len() == 7 && "Success"@[0] == 'S',
{
    reveal_strlit("uuid");
    reveal_strlit("type");
    reveal_strlit("files");
    reveal_strlit("accepted");
    reveal_strlit("slotsAvailable");
    reveal_strlit("message");
    reveal_strlit("code");
    reveal_strlit("stdout");
    reveal_strlit("stderr");
    reveal_strlit("archive");
    reveal_strlit("lintOutput");
    reveal_strlit("buildOutput");
    reveal_strlit("Request");
    reveal_strlit("Acknowledge");
    reveal_strlit("Heartbeat");
    reveal_strlit("ValidationError");
    reveal_strlit("LintExit");
    reveal_strlit("BuildExit");
    reveal_strlit("LowLevelError");
    reveal_strlit("Success");
}

/// Files with distinct paths are read back from their members as they were.
pub proof fn lemma_files_round_trip(files: Files)
    requires
        distinct_paths(files),
    ensures
        files_of(file_members(files)) == Some(files),
    decreases files.len(),
{
    let members = file_members(files);
    if files.len() > 0 {
        let rest = files.drop_last();
        assert(members.drop_last() =~= file_members(rest));
        lemma_files_round_trip(rest);
        lemma_position_of(rest, files.last().0);
    }
}

/// The document of a pair of output streams holds those streams.
proof fn lemma_outputs_round_trip(outputs: OutputsView)
    ensures
        outputs_of(outputs_document(outputs)) == Some(outputs),
{
    lemma_names();
    reveal_with_fuel(member, 3);
}

/// Round trip: the document that is written for a packet is read back as the
/// same packet, with the same identifier, the same kind and the same content.
pub proof fn lemma_decoding_inverts_encoding(packet: PacketView)
    requires
        well_formed(packet),
    ensures
        packet_of(document_of(packet)) == Some(packet),
{
    lemma_names();
    reveal_with_fuel(member, 6);
    match packet {
        PacketView::Request { files, .. } => {
            lemma_files_round_trip(files);
        },
        PacketView::Response {
            status: StatusView::Success { lint_output, build_output, .. },
            ..
        } => {
            lemma_outputs_round_trip(lint_output);
            lemma_outputs_round_trip(build_output);
        },
        _ => {},
    }
}

/// The member that holds `text` under `key`.
fn text_member(key: &str, text: &str) -> (out: (String, Json))
    ensures
        out.0@ == key@,
        out.1@ == JsonView::Text(text@),
{
    (key.to_owned(), Json::text(text))
}

/// The two members every message but the heartbeat begins with.
fn write_heading(uuid: u128, kind: &str) -> (members: Vec<(String, Json)>)
    ensures
        members_of(members@) == heading(uuid, kind@),
        uuid_parsed(uuid_text(uuid)) == Some(uuid),
{
    let mut members: Vec<(String, Json)> = Vec::new();
    let identifier = format_identifier(uuid);
    members.push(text_member("uuid", identifier.as_str()));
    members.push(text_member("type", kind));
    members
}

/// The document of a pair of output streams.
fn write_outputs(outputs: &WebpackOutputs) -> (doc: Json)
    ensures
        doc@ == outputs_document(outputs@),
{
    let mut members: Vec<(String, Json)> = Vec::new();
    members.push(text_member("stdout", outputs.stdout.0.as_str()));
    members.push(text_member("stderr", outputs.stderr.0.as_str()));
    assert(members_of(members@) =~= outputs_document(outputs@)->Object_0);
    Json::object(members)
}

/// The `type` of a response that reports `status`.
fn kind_name(status: &BuildStatus) -> (kind: &'static str)
    ensures
        kind@ == status_kind(status@),
{
    match status {
        BuildStatus::ValidationError { .. } => "ValidationError",
        BuildStatus::LintExit { .. } => "LintExit",
        BuildStatus::BuildExit { .. } => "BuildExit",
        BuildStatus::LowLevelError => "LowLevelError",
        BuildStatus::Success { .. } => "Success",
    }
}

/// Appends the members that follow `uuid` and `type` in a response.
fn write_status(members: &mut Vec<(String, Json)>, status: &BuildStatus)
    ensures
        members_of(final(members)@) == members_of(old(members)@) + status_members(status@),
{
    match status {
        BuildStatus::ValidationError { message } => {
            members.push(text_member("message", message.as_str()));
        },
        BuildStatus::LintExit { code, outputs } => {
            members.push(("code".to_owned(), Json::Number(*code as i128)));
            members.push(text_member("stdout", outputs.stdout.0.as_str()));
            members.push(text_member("stderr", outputs.stderr.0.as_str()));
        },
        BuildStatus::BuildExit { code, outputs } => {
            members.push(("code".to_owned(), Json::Number(*code as i128)));
            members.push(text_member("stdout", outputs.stdout.0.as_str()));
            members.push(text_member("stderr", outputs.stderr.0.as_str()));
        },
        BuildStatus::LowLevelError => {},
        BuildStatus::Success { archive, lint_output, build_output } => {
            members.push(text_member("archive", archive.0.as_str()));
            members.push(("lintOutput".to_owned(), write_outputs(lint_output)));
            members.push(("buildOutput".to_owned(), write_outputs(build_output)));
        },
    }
}

/// The `files` object of a request.
fn write_files(context: &BuildContext) -> (doc: Json)
    ensures
        doc@ == JsonView::Object(file_members(context@)),
        distinct_paths(context@),
{
    let n = context.len();
    let mut members: Vec<(String, Json)> = Vec::new();
    let mut i: usize = 0;
    while i < n
        invariant
            n == context@.len(),
            i <= n,
            members_of(members@) == file_members(context@.take(i as int)),
        decreases n - i,
    {
        let ghost before = members_of(members@);
        members.push(text_member(context.path(i).as_str(), context.content(i).0.as_str()));
        assert(members_of(members@) =~= before.push(
            (context@[i as int].0, JsonView::Text(context@[i as int].1)),
        ));
        i = i + 1;
    }
    assert(context@.take(n as int) == context@);
    Json::object(members)
}

/// Whether `text` is the text of `literal`.
fn text_is(text: &String, literal: &str) -> (same: bool)
    ensures
        same == (text@ == literal@),
{
    *text == literal.to_owned()
}

/// Reads the files that the members of a `files` object stand for.
fn read_files(members: &Vec<(String, Json)>) -> (out: Option<BuildContext>)
    ensures
        match files_of(members_of(members@)) {
            Some(files) => out matches Some(context) && context@ == files,
            None => out is None,
        },
{
    let n = members.len();
    let mut context = BuildContext::new();
    let mut i: usize = 0;
    while i < n
        invariant
            n == members@.len(),
            i <= n,
            files_of(members_of(members@).take(i as int)) == Some(context@),
        decreases n - i,
    {
        proof {
            let all = members_of(members@);
            assert(all.take(i + 1).drop_last() == all.take(i as int));
        }
        match members[i].1.as_text() {
            Some(content) => {
                context.insert(members[i].0.clone(), Base64Encoded(content.clone()));
            },
            None => {
                proof {
                    lemma_files_need_texts(members_of(members@), i as int);
                }
                return None;
            },
        }
        i = i + 1;
    }
    assert(members_of(members@).take(n as int) == members_of(members@));
    Some(context)
}

/// Reads the output streams that a document holds in `stdout` and `stderr`.
fn read_outputs(doc: &Json) -> (out: Option<WebpackOutputs>)
    ensures
        match outputs_of(doc@) {
            Some(outputs) => out matches Some(read) && read@ == outputs,
            None => out is None,
        },
{
    match (doc.text_at("stdout"), doc.text_at("stderr")) {
        (Some(stdout), Some(stderr)) => Some(
            WebpackOutputs {
                stdout: Base64Encoded(stdout.clone()),
                stderr: Base64Encoded(stderr.clone()),
            },
        ),
        _ => None,
    }
}

/// Reads the output streams that the member called `key` holds.
fn read_outputs_at(doc: &Json, key: &str) -> (out: Option<WebpackOutputs>)
    ensures
        match outputs_at(doc@, key@) {
            Some(outputs) => out matches Some(read) && read@ == outputs,
            None => out is None,
        },
{
    match doc.field(key) {
        Some(inner) => read_outputs(inner),
        None => None,
    }
}

/// Reads the exit code that a document holds in `code`.
fn read_code(doc: &Json) -> (out: Option<i32>)
    ensures
        out == code_of(doc@),
{
    match doc.number_at("code") {
        Some(n) => if -0x8000_0000 <= n && n <= 0x7fff_ffff {
            Some(n as i32)
        } else {
            None
        },
        None => None,
    }
}

/// Reads the build status that a document of the given `type` holds.
fn read_status(kind: &String, doc: &Json) -> (out: Option<BuildStatus>)
    ensures
        match status_of(kind@, doc@) {
            Some(status) => out matches Some(read) && read@ == status,
            None => out is None,
        },
{
    if text_is(kind, "ValidationError") {
        match doc.text_at("message") {
            Some(message) => Some(BuildStatus::ValidationError { message: message.clone() }),
            None => None,
        }
    } else if text_is(kind, "LintExit") {
        match (read_code(doc), read_outputs(doc)) {
            (Some(code), Some(outputs)) => Some(BuildStatus::LintExit { code, outputs }),
            _ => None,
        }
    } else if text_is(kind, "BuildExit") {
        match (read_code(doc), read_outputs(doc)) {
            (Some(code), Some(outputs)) => Some(BuildStatus::BuildExit { code, outputs }),
            _ => None,
        }
    } else if text_is(kind, "LowLevelError") {
        Some(BuildStatus::LowLevelError)
    } else if text_is(kind, "Success") {
        match (
            doc.text_at("archive"),
            read_outputs_at(doc, "lintOutput"),
            read_outputs_at(doc, "buildOutput"),
        ) {
            (Some(archive), Some(lint_output), Some(build_output)) => Some(
                BuildStatus::Success {
                    archive: Base64Encoded(archive.clone()),
                    lint_output,
                    build_output,
                },
            ),
            _ => None,
        }
    } else {
        None
    }
}

impl Tagged<()> {
    /// Writes the identifier as a document of its own.
    pub fn to_document(&self) -> (doc: Json)
        ensures
            doc@ == identifier_document(self.uuid),
    {
        let mut members: Vec<(String, Json)> = Vec::new();
        members.push(text_member("uuid", format_identifier(self.uuid).as_str()));
        assert(members_of(members@) =~= seq![("uuid"@, JsonView::Text(uuid_text(self.uuid)))]);
        Json::object(members)
    }
}

impl BuildContext {
    /// Writes the context as a document of its own. Reading the document
    /// back gives the same files.
    pub fn to_document(&self) -> (doc: Json)
        ensures
            doc@ == context_document(self@),
            context_of(doc@) == Some(self@),
    {
        let mut members: Vec<(String, Json)> = Vec::new();
        members.push(("files".to_owned(), write_files(self)));
        assert(members_of(members@) =~= seq![
            ("files"@, JsonView::Object(file_members(self@))),
        ]);
        proof {
            lemma_files_round_trip(self@);
            reveal_with_fuel(member, 2);
        }
        Json::object(members)
    }

    /// Reads a context from a document. Fails exactly if the document has no
    /// `files` object, or if one of the files is not a text.
    pub fn from_document(doc: &Json) -> (out: Result<BuildContext, DecodeError>)
        ensures
            match context_of(doc@) {
                Some(files) => out matches Ok(context) && context@ == files,
                None => out is Err,
            },
    {
        let members = match doc.field("files") {
            Some(files) => match files.as_object() {
                Some(members) => members,
                None => {
                    return Err(DecodeError);
                },
            },
            None => {
                return Err(DecodeError);
            },
        };
        match read_files(members) {
            Some(context) => Ok(context),
            None => Err(DecodeError),
        }
    }
}

impl BuildStatus {
    /// Writes the status as a document of its own.
    pub fn to_document(&self) -> (doc: Json)
        ensures
            doc@ == status_document(self@),
    {
        let mut members: Vec<(String, Json)> = Vec::new();
        members.push(text_member("type", kind_name(self)));
        assert(members_of(members@) =~= seq![("type"@, JsonView::Text(status_kind(self@)))]);
        write_status(&mut members, self);
        Json::object(members)
    }
}

impl Packet {
    /// Writes the packet as a document. Reading the document back gives the
    /// same packet.
    pub fn to_document(&self) -> (doc: Json)
        ensures
            doc@ == document_of(self@),
            packet_of(doc@) == Some(self@),
    {
        let doc = match self {
            Packet::Request(request) => {
                let mut members = write_heading(request.uuid, "Request");
                let ghost before = members_of(members@);
                members.push(("files".to_owned(), write_files(&request.inner)));
                assert(members_of(members@) =~= before + seq![
                    ("files"@, JsonView::Object(file_members(request.inner@))),
                ]);
                Json::object(members)
            },
            Packet::Acknowledge(ack) => {
                let mut members = write_heading(ack.uuid, "Acknowledge");
                let ghost before = members_of(members@);
                members.push(("accepted".to_owned(), Json::Bool(ack.inner.accepted)));
                members.push(
                    ("slotsAvailable".to_owned(), Json::Number(ack.inner.slots_available as i128)),
                );
                assert(members_of(members@) =~= before + seq![
                    ("accepted"@, JsonView::Bool(ack.inner.accepted)),
                    ("slotsAvailable"@, JsonView::Number(ack.inner.slots_available as int)),
                ]);
                Json::object(members)
            },
            Packet::Response(response) => {
                let mut members = write_heading(response.uuid, kind_name(&response.inner));
                write_status(&mut members, &response.inner);
                Json::object(members)
            },
            Packet::Heartbeat => {
                let mut members: Vec<(String, Json)> = Vec::new();
                members.push(text_member("type", "Heartbeat"));
                assert(members_of(members@) =~= seq![("type"@, JsonView::Text("Heartbeat"@))]);
                Json::object(members)
            },
        };
        proof {
            lemma_decoding_inverts_encoding(self@);
        }
        doc
    }

    /// Reads a packet from a document. Fails exactly if the document has the
    /// shape of no message.
    pub fn from_document(doc: &Json) -> (out: Result<Packet, DecodeError>)
        ensures
            match packet_of(doc@) {
                Some(packet) => out matches Ok(read) && read@ == packet,
                None => out is Err,
            },
    {
        let kind = match doc.text_at("type") {
            Some(kind) => kind,
            None => {
                return Err(DecodeError);
            },
        };
        if text_is(kind, "Heartbeat") {
            return Ok(Packet::Heartbeat);
        }
        let uuid = match doc.text_at("uuid") {
            Some(text) => match parse_identifier(text.as_str()) {
                Some(uuid) => uuid,
                None => {
                    return Err(DecodeError);
                },
            },
            None => {
                return Err(DecodeError);
            },
        };
        Packet::from_tagged_document(uuid, kind.as_str(), doc)
    }

    /// Reads the packet that a document of the given `type` holds under an
    /// identifier that was read already. Fails exactly if the type is that of
    /// no tagged message, or if the document lacks a member that the message
    /// needs.
    pub fn from_tagged_document(uuid: u128, kind: &str, doc: &Json) -> (out: Result<
        Packet,
        DecodeError,
    >)
        ensures
            match tagged_packet_of(uuid, kind@, doc@) {
                Some(packet) => out matches Ok(read) && read@ == packet,
                None => out is Err,
            },
    {
        let kind = kind.to_owned();
        if text_is(&kind, "Request") {
            match BuildContext::from_document(doc) {
                Ok(inner) => Ok(Packet::Request(Tagged { uuid, inner })),
                Err(error) => Err(error),
            }
        } else if text_is(&kind, "Acknowledge") {
            match (doc.flag_at("accepted"), doc.number_at("slotsAvailable")) {
                (Some(accepted), Some(n)) => {
                    if 0 <= n && n <= usize::MAX as i128 {
                        Ok(
                            Packet::Acknowledge(
                                Tagged {
                                    uuid,
                                    inner: QueueInfo { accepted, slots_available: n as usize },
                                },
                            ),
                        )
                    } else {
                        Err(DecodeError)
                    }
                },
                _ => Err(DecodeError),
            }
        } else {
            match read_status(&kind, doc) {
                Some(inner) => Ok(Packet::Response(Tagged { uuid, inner })),
                None => Err(DecodeError),
            }
        }
    }
}

/// Members of which one is not a text stand for no files.
proof fn lemma_files_need_texts(members: Members, i: int)
    requires
        0 <= i < members.len(),
        !(members[i].1 is Text),
    ensures
        files_of(members) is None,
    decreases members.len(),
{
    if i < members.len() - 1 {
        lemma_files_need_texts(members.drop_last(), i);
    }
}

} // verus!
