//! Agent manifests: the documents that describe a kind of agent.
//!
//! A kind has three JSON documents: its header, the names of its capabilities and
//! the names of its skills. A shared base holds capabilities and skills that every
//! kind inherits.

use vstd::prelude::*;

use crate::document::{
    block, bool_found, complaint, doc_of, field, fits, json_complaint, open_doc, optional_u32, refusal, refuse,
    text_found, texts_found, u32_found, DocV, Found, FoundV,
};
use crate::text::{chars_of, concat2, concat3, has_prefix, list_contains, str_eq, strip_prefix, string_is, views};

verus! {

/// The header of a kind.
#[derive(Clone, Debug, PartialEq, Eq)]
pub struct AgentMeta {
    pub kind: String,
    pub description: String,
    pub spawn_enabled: bool,
    pub allowed_kinds: Vec<String>,
    pub retries: u32,
    pub tool_block_retries: Option<u32>,
}

/// What an [`AgentMeta`] holds.
#[verifier::ext_equal]
pub struct MetaV {
    pub kind: Seq<char>,
    pub description: Seq<char>,
    pub spawn_enabled: bool,
    pub allowed_kinds: Seq<Seq<char>>,
    pub retries: u32,
    pub tool_block_retries: Option<u32>,
}

impl View for AgentMeta {
    type V = MetaV;

    open spec fn view(&self) -> MetaV {
        MetaV {
            kind: self.kind@,
            description: self.description@,
            spawn_enabled: self.spawn_enabled,
            allowed_kinds: views(self.allowed_kinds@),
            retries: self.retries,
            tool_block_retries: self.tool_block_retries,
        }
    }
}

/// The fields of a header's `spawn` block.
#[derive(Debug, PartialEq)]
pub struct SpawnFields {
    pub enabled: Found,
    pub allowed_kinds: Found,
}

/// What [`SpawnFields`] hold.
pub struct SpawnFieldsV {
    pub enabled: FoundV,
    pub allowed_kinds: FoundV,
}

/// The fields of a header's `runtime` block.
#[derive(Debug, PartialEq)]
pub struct RuntimeFields {
    pub retries: Found,
    pub tool_block_retries: Found,
}

/// What [`RuntimeFields`] hold.
pub struct RuntimeFieldsV {
    pub retries: FoundV,
    pub tool_block_retries: FoundV,
}

/// The fields of a header as a document gives them. A block that is not given once, or
/// is no block, is none.
#[derive(Debug, PartialEq)]
pub struct MetaFields {
    pub schema_version: Found,
    pub kind: Found,
    pub description: Found,
    pub spawn: Option<SpawnFields>,
    pub runtime: Option<RuntimeFields>,
}

/// What [`MetaFields`] hold.
pub struct MetaFieldsV {
    pub schema_version: FoundV,
    pub kind: FoundV,
    pub description: FoundV,
    pub spawn: Option<SpawnFieldsV>,
    pub runtime: Option<RuntimeFieldsV>,
}

impl View for MetaFields {
    type V = MetaFieldsV;

    open spec fn view(&self) -> MetaFieldsV {
        MetaFieldsV {
            schema_version: self.schema_version@,
            kind: self.kind@,
            description: self.description@,
            spawn: match self.spawn {
                Some(s) => Some(SpawnFieldsV { enabled: s.enabled@, allowed_kinds: s.allowed_kinds@ }),
                None => None,
            },
            runtime: match self.runtime {
                Some(r) => Some(
                    RuntimeFieldsV { retries: r.retries@, tool_block_retries: r.tool_block_retries@ },
                ),
                None => None,
            },
        }
    }
}

/// The fields of the header that a text is.
pub open spec fn meta_fields(text: Seq<char>) -> Option<MetaFieldsV> {
    match doc_of(text) {
        Some(d) => if fits(d, 5) {
            Some(
                MetaFieldsV {
                    schema_version: field(d, "schema_version"@, 0),
                    kind: field(d, "kind"@, 1),
                    description: field(d, "description"@, 2),
                    spawn: match block(d, "spawn"@, 3, 2) {
                        Some(b) => Some(
                            SpawnFieldsV {
                                enabled: field(b, "enabled"@, 0),
                                allowed_kinds: field(b, "allowed_kinds"@, 1),
                            },
                        ),
                        None => None,
                    },
                    runtime: match block(d, "runtime"@, 4, 2) {
                        Some(b) => Some(
                            RuntimeFieldsV {
                                retries: field(b, "retries"@, 0),
                                tool_block_retries: field(b, "tool_block_retries"@, 1),
                            },
                        ),
                        None => None,
                    },
                },
            )
        } else {
            None
        },
        None => None,
    }
}

fn open_meta(text: &str) -> (r: Option<MetaFields>)
    ensures
        match r {
            Some(f) => meta_fields(text@) == Some(f@),
            None => meta_fields(text@) is None,
        },
{
    let d = match open_doc(text) {
        Some(d) => d,
        None => {
            return None;
        },
    };
    if !d.fits(5) {
        return None;
    }
    let spawn = match d.block("spawn", 3, 2) {
        Some(b) => Some(
            SpawnFields { enabled: b.field("enabled", 0), allowed_kinds: b.field("allowed_kinds", 1) },
        ),
        None => None,
    };
    let runtime = match d.block("runtime", 4, 2) {
        Some(b) => Some(
            RuntimeFields {
                retries: b.field("retries", 0),
                tool_block_retries: b.field("tool_block_retries", 1),
            },
        ),
        None => None,
    };
    Some(
        MetaFields {
            schema_version: d.field("schema_version", 0),
            kind: d.field("kind", 1),
            description: d.field("description", 2),
            spawn,
            runtime,
        },
    )
}

/// What a header says, or the first field of it that is missing, repeated or wrong.
pub open spec fn meta_of(f: MetaFieldsV) -> Result<MetaV, Seq<char>> {
    if u32_found(f.schema_version) is None {
        Err("schema_version"@)
    } else if text_found(f.kind) is None {
        Err("kind"@)
    } else if text_found(f.description) is None {
        Err("description"@)
    } else {
        match (f.spawn, f.runtime) {
            (None, _) => Err("spawn"@),
            (Some(spawn), runtime) => if bool_found(spawn.enabled) is None {
                Err("spawn.enabled"@)
            } else if texts_found(spawn.allowed_kinds) is None {
                Err("spawn.allowed_kinds"@)
            } else {
                match runtime {
                    None => Err("runtime"@),
                    Some(runtime) => if u32_found(runtime.retries) is None {
                        Err("runtime.retries"@)
                    } else if optional_u32(runtime.tool_block_retries) is None {
                        Err("runtime.tool_block_retries"@)
                    } else {
                        Ok(
                            MetaV {
                                kind: text_found(f.kind)->Some_0,
                                description: text_found(f.description)->Some_0,
                                spawn_enabled: bool_found(spawn.enabled)->Some_0,
                                allowed_kinds: texts_found(spawn.allowed_kinds)->Some_0,
                                retries: u32_found(runtime.retries)->Some_0,
                                tool_block_retries: optional_u32(runtime.tool_block_retries)->Some_0,
                            },
                        )
                    },
                }
            },
        }
    }
}

/// Reads a header; an error names the first field that is missing, repeated or wrong.
pub fn read_meta(f: &MetaFields) -> (r: Result<AgentMeta, &'static str>)
    ensures
        match r {
            Ok(m) => meta_of(f@) == Ok::<MetaV, Seq<char>>(m@),
            Err(field) => meta_of(f@) == Err::<MetaV, Seq<char>>(field@),
        },
{
    if f.schema_version.number().is_none() {
        return Err("schema_version");
    }
    let kind = match f.kind.text() {
        Some(s) => s,
        None => {
            return Err("kind");
        },
    };
    let description = match f.description.text() {
        Some(s) => s,
        None => {
            return Err("description");
        },
    };
    let spawn = match &f.spawn {
        Some(s) => s,
        None => {
            return Err("spawn");
        },
    };
    let spawn_enabled = match spawn.enabled.truth() {
        Some(b) => b,
        None => {
            return Err("spawn.enabled");
        },
    };
    let allowed_kinds = match spawn.allowed_kinds.texts() {
        Some(texts) => texts,
        None => {
            return Err("spawn.allowed_kinds");
        },
    };
    let runtime = match &f.runtime {
        Some(s) => s,
        None => {
            return Err("runtime");
        },
    };
    let retries: u32 = match runtime.retries.number() {
        Some(n) => n,
        None => {
            return Err("runtime.retries");
        },
    };
    let tool_block_retries = match runtime.tool_block_retries.optional_number() {
        Some(n) => n,
        None => {
            return Err("runtime.tool_block_retries");
        },
    };
    Ok(AgentMeta { kind, description, spawn_enabled, allowed_kinds, retries, tool_block_retries })
}

/// The names that the fields of a list document give, or the first of them that is
/// missing, repeated or wrong.
pub open spec fn names_in(schema_version: FoundV, names: FoundV, key: Seq<char>) -> Result<
    Seq<Seq<char>>,
    Seq<char>,
> {
    if u32_found(schema_version) is None {
        Err("schema_version"@)
    } else {
        match texts_found(names) {
            Some(texts) => Ok(texts),
            None => Err(key),
        }
    }
}

/// Reads the fields of the list document of the names under `key`.
pub fn read_names(schema_version: &Found, names: &Found, key: &'static str) -> (r: Result<Vec<String>, &'static str>)
    ensures
        match r {
            Ok(list) => names_in(schema_version@, names@, key@) == Ok::<Seq<Seq<char>>, Seq<char>>(views(list@)),
            Err(field) => names_in(schema_version@, names@, key@) == Err::<Seq<Seq<char>>, Seq<char>>(field@),
        },
{
    if schema_version.number().is_none() {
        return Err("schema_version");
    }
    match names.texts() {
        Some(list) => Ok(list),
        None => Err(key),
    }
}

/// What is said of a field that is missing, repeated or wrong.
pub open spec fn field_error(field: Seq<char>) -> Seq<char> {
    "missing or invalid field `"@ + field + "`"@
}

fn make_field_error(field: &str) -> (r: String)
    ensures
        r@ == field_error(field@),
{
    concat3("missing or invalid field `", field, "`")
}

/// What a text says as a header: an object, or a list of its five fields.
pub open spec fn meta_text(text: Seq<char>) -> Result<MetaV, Seq<char>> {
    match json_complaint(text) {
        Some(e) => Err(refusal(text, e)),
        None => match meta_fields(text) {
            None => Err(refusal(text, "not a header"@)),
            Some(f) => match meta_of(f) {
                Ok(m) => Ok(m),
                Err(field) => Err(refusal(text, field_error(field))),
            },
        },
    }
}

/// Reads a text as a header. Of a text that is JSON but no header the message is this
/// library's own; it names no place in the text.
pub fn parse_meta(text: &str) -> (r: Result<AgentMeta, String>)
    ensures
        match r {
            Ok(m) => meta_text(text@) == Ok::<MetaV, Seq<char>>(m@),
            Err(e) => meta_text(text@) == Err::<MetaV, Seq<char>>(e@),
        },
{
    if let Some(e) = complaint(text) {
        return Err(refuse(text, e));
    }
    match open_meta(text) {
        None => Err(refuse(text, "not a header".to_owned())),
        Some(f) => match read_meta(&f) {
            Ok(m) => Ok(m),
            Err(field) => Err(refuse(text, make_field_error(field))),
        },
    }
}

/// What a text says as a list document: an object, or a list of its two fields.
pub open spec fn names_text(text: Seq<char>, key: Seq<char>) -> Result<Seq<Seq<char>>, Seq<char>> {
    match json_complaint(text) {
        Some(e) => Err(refusal(text, e)),
        None => match doc_of(text) {
            Some(d) => if fits(d, 2) {
                match names_in(field(d, "schema_version"@, 0), field(d, key, 1), key) {
                    Ok(names) => Ok(names),
                    Err(field) => Err(refusal(text, field_error(field))),
                }
            } else {
                Err(refusal(text, "not a list document"@))
            },
            None => Err(refusal(text, "not a list document"@)),
        },
    }
}

/// Reads a text as a list document. Its messages are as those of a header.
pub fn parse_names(text: &str, key: &'static str) -> (r: Result<Vec<String>, String>)
    ensures
        match r {
            Ok(names) => names_text(text@, key@) == Ok::<Seq<Seq<char>>, Seq<char>>(views(names@)),
            Err(e) => names_text(text@, key@) == Err::<Seq<Seq<char>>, Seq<char>>(e@),
        },
{
    if let Some(e) = complaint(text) {
        return Err(refuse(text, e));
    }
    let d = match open_doc(text) {
        Some(d) => d,
        None => {
            return Err(refuse(text, "not a list document".to_owned()));
        },
    };
    if !d.fits(2) {
        return Err(refuse(text, "not a list document".to_owned()));
    }
    match read_names(&d.field("schema_version", 0), &d.field(key, 1), key) {
        Ok(names) => Ok(names),
        Err(field) => Err(refuse(text, make_field_error(field))),
    }
}

/// The names of a sequence without later repetitions.
pub open spec fn first_seen(names: Seq<Seq<char>>) -> Seq<Seq<char>>
    decreases names.len(),
{
    if names.len() == 0 {
        names
    } else {
        let before = first_seen(names.drop_last());
        if before.contains(names.last()) {
            before
        } else {
            before.push(names.last())
        }
    }
}

/// The names of `base` and then those of `own`, each once, where it is first seen.
pub fn merge_unique(base: &Vec<String>, own: &Vec<String>) -> (r: Vec<String>)
    ensures
        views(r@) == first_seen(views(base@) + views(own@)),
{
    let ghost b = views(base@);
    let ghost o = views(own@);
    let ghost all = b + o;
    let mut merged: Vec<String> = Vec::new();
    let mut i: usize = 0;
    assert(all.take(0) =~= Seq::<Seq<char>>::empty());
    assert(views(merged@) =~= Seq::<Seq<char>>::empty());
    while i < base.len()
        invariant
            b == views(base@),
            all == b + o,
            i <= base@.len(),
            views(merged@) == first_seen(all.take(i as int)),
        decreases base@.len() - i,
    {
        proof {
            assert(all.take(i + 1).drop_last() =~= all.take(i as int));
            assert(all.take(i + 1).last() == b[i as int]);
            assert(b[i as int] == base@[i as int]@);
        }
        if !list_contains(&merged, base[i].as_str()) {
            let ghost before = merged@;
            merged.push(base[i].clone());
            assert(views(merged@) =~= views(before).push(base@[i as int]@));
        }
        i = i + 1;
    }
    let mut j: usize = 0;
    while j < own.len()
        invariant
            b == views(base@),
            o == views(own@),
            all == b + o,
            j <= own@.len(),
            views(merged@) == first_seen(all.take(b.len() + j)),
        decreases own@.len() - j,
    {
        let ghost at = b.len() + j;
        proof {
            assert(all.take(at + 1).drop_last() =~= all.take(at as int));
            assert(all.take(at + 1).last() == o[j as int]);
            assert(o[j as int] == own@[j as int]@);
        }
        if !list_contains(&merged, own[j].as_str()) {
            let ghost before = merged@;
            merged.push(own[j].clone());
            assert(views(merged@) =~= views(before).push(own@[j as int]@));
        }
        j = j + 1;
    }
    assert(all.take(all.len() as int) =~= all);
    merged
}

/// Merging keeps every name and no name twice.
pub proof fn law_merge_keeps_each_name_once(names: Seq<Seq<char>>)
    ensures
        first_seen(names).no_duplicates(),
        forall|n: Seq<char>| #[trigger] first_seen(names).contains(n) <==> names.contains(n),
    decreases names.len(),
{
    if names.len() > 0 {
        let front = names.drop_last();
        let before = first_seen(front);
        law_merge_keeps_each_name_once(front);
        assert forall|n: Seq<char>| #[trigger] first_seen(names).contains(n) <==> names.contains(n) by {
            if first_seen(names).contains(n) {
                if before.contains(n) {
                    assert(front.contains(n));
                    let i = choose|i: int| 0 <= i < front.len() && front[i] == n;
                    assert(names[i] == n);
                } else {
                    assert(n == names.last());
                    assert(names[names.len() - 1] == n);
                }
            }
            if names.contains(n) {
                let i = choose|i: int| 0 <= i < names.len() && names[i] == n;
                if i < front.len() {
                    assert(front[i] == n);
                    assert(front.contains(n));
                    assert(before.contains(n));
                    let k = choose|k: int| 0 <= k < before.len() && before[k] == n;
                    assert(first_seen(names)[k] == n);
                } else if !before.contains(n) {
                    assert(first_seen(names)[before.len() as int] == n);
                } else {
                    let k = choose|k: int| 0 <= k < before.len() && before[k] == n;
                    assert(first_seen(names)[k] == n);
                }
            }
        }
    }
}

/// Merging twice changes nothing.
pub proof fn law_merge_is_stable(names: Seq<Seq<char>>)
    ensures
        first_seen(first_seen(names)) == first_seen(names),
    decreases names.len(),
{
    if names.len() > 0 {
        let before = first_seen(names.drop_last());
        law_merge_is_stable(names.drop_last());
        if !before.contains(names.last()) {
            assert(before.push(names.last()).drop_last() =~= before);
        }
    }
}

/// The capabilities and skills that every kind inherits.
#[derive(Clone, Debug, PartialEq, Eq)]
pub struct CommonBase {
    pub capabilities: Vec<String>,
    pub skills: Vec<String>,
}

/// A kind with all that is said of it.
#[derive(Clone, Debug, PartialEq, Eq)]
pub struct ParsedManifest {
    pub kind: String,
    pub description: String,
    pub spawn_enabled: bool,
    pub allowed_kinds: Vec<String>,
    pub retries: u32,
    pub tool_block_retries: Option<u32>,
    pub capabilities: Vec<String>,
    pub skills: Vec<String>,
    pub instructions_path: String,
}

/// The path of a file in a directory.
pub open spec fn file_path(dir: Seq<char>, file: Seq<char>) -> Seq<char> {
    dir + "/"@ + file
}

/// What a document in a directory says. `text` is what reading the file gave.
pub open spec fn document<T>(
    dir: Seq<char>,
    file: Seq<char>,
    text: Result<String, String>,
    meaning: spec_fn(Seq<char>) -> Result<T, Seq<char>>,
) -> Result<T, Seq<char>> {
    match text {
        Err(e) => Err("reading "@ + file_path(dir, file) + ": "@ + e@),
        Ok(t) => match meaning(t@) {
            Ok(x) => Ok(x),
            Err(e) => Err("parsing "@ + file_path(dir, file) + ": "@ + e),
        },
    }
}

fn document_error(verb: &str, dir: &str, file: &str, e: &str) -> (r: String)
    ensures
        r@ == verb@ + file_path(dir@, file@) + ": "@ + e@,
{
    let path = concat3(dir, "/", file);
    let mut r = concat2(verb, path.as_str());
    r.append(": ");
    r.append(e);
    r
}

/// What the list document of a directory says.
pub open spec fn names_document(dir: Seq<char>, file: Seq<char>, text: Result<String, String>, key: Seq<char>) -> Result<
    Seq<Seq<char>>,
    Seq<char>,
> {
    document(dir, file, text, |t: Seq<char>| names_text(t, key))
}

fn read_names_document(dir: &str, file: &str, text: &Result<String, String>, key: &'static str) -> (r: Result<
    Vec<String>,
    String,
>)
    ensures
        match r {
            Ok(names) => names_document(dir@, file@, *text, key@) == Ok::<Seq<Seq<char>>, Seq<char>>(views(names@)),
            Err(e) => names_document(dir@, file@, *text, key@) == Err::<Seq<Seq<char>>, Seq<char>>(e@),
        },
{
    match text {
        Err(e) => Err(document_error("reading ", dir, file, e.as_str())),
        Ok(t) => match parse_names(t.as_str(), key) {
            Ok(names) => Ok(names),
            Err(e) => Err(document_error("parsing ", dir, file, e.as_str())),
        },
    }
}

pub const CAPABILITIES_FILE: &'static str = "capabilities/capabilities.json";

pub const SKILLS_FILE: &'static str = "skills/skills.json";

pub const AGENT_FILE: &'static str = "agent.json";

pub const INSTRUCTIONS_FILE: &'static str = "instructions.md";

/// Reads the shared base. It must not declare a kind. `capabilities` and `skills`
/// are what reading the two files gave.
pub fn parse_common(
    common_dir: &str,
    has_agent_json: bool,
    capabilities: &Result<String, String>,
    skills: &Result<String, String>,
) -> (r: Result<CommonBase, String>)
    ensures
        if has_agent_json {
            r matches Err(e) && e@ == common_dir@
                + " must not contain agent.json: the shared base defines default capabilities/skills inherited by all kinds, not an agent kind"@
        } else {
            match names_document(common_dir@, CAPABILITIES_FILE@, *capabilities, "capabilities"@) {
                Err(e) => r matches Err(m) && m@ == e,
                Ok(caps) => match names_document(common_dir@, SKILLS_FILE@, *skills, "skills"@) {
                    Err(e) => r matches Err(m) && m@ == e,
                    Ok(sk) => r matches Ok(base) && views(base.capabilities@) == caps && views(base.skills@) == sk,
                },
            }
        },
{
    if has_agent_json {
        return Err(
            concat2(
                common_dir,
                " must not contain agent.json: the shared base defines default capabilities/skills inherited by all kinds, not an agent kind",
            ),
        );
    }
    let capabilities = match read_names_document(common_dir, CAPABILITIES_FILE, capabilities, "capabilities") {
        Ok(names) => names,
        Err(e) => {
            return Err(e);
        },
    };
    let skills = match read_names_document(common_dir, SKILLS_FILE, skills, "skills") {
        Ok(names) => names,
        Err(e) => {
            return Err(e);
        },
    };
    Ok(CommonBase { capabilities, skills })
}

/// What the files of a kind's directory gave.
pub struct KindFiles {
    pub agent_json: Result<String, String>,
    pub capabilities_json: Result<String, String>,
    pub skills_json: Result<String, String>,
    pub has_instructions: bool,
}

/// What is said where a directory and its header name different kinds.
pub open spec fn kind_mismatch(dir: Seq<char>, name: Seq<char>, declared: Seq<char>) -> Seq<char> {
    "kind mismatch in "@ + dir + ": directory is '"@ + name + "' but agent.json declares '"@ + declared + "'"@
}

/// Reads a kind's directory. The name of the directory is the kind, and the header
/// must say the same.
pub fn parse_kind(dir: &str, dir_name: &str, files: &KindFiles) -> (r: Result<ParsedManifest, String>)
    ensures
        match document(dir@, AGENT_FILE@, files.agent_json, |t: Seq<char>| meta_text(t)) {
            Err(e) => r matches Err(m) && m@ == e,
            Ok(meta) => if meta.kind != dir_name@ {
                r matches Err(m) && m@ == kind_mismatch(dir@, dir_name@, meta.kind)
            } else {
                match names_document(dir@, CAPABILITIES_FILE@, files.capabilities_json, "capabilities"@) {
                    Err(e) => r matches Err(m) && m@ == e,
                    Ok(caps) => match names_document(dir@, SKILLS_FILE@, files.skills_json, "skills"@) {
                        Err(e) => r matches Err(m) && m@ == e,
                        Ok(sk) => if !files.has_instructions {
                            r matches Err(m) && m@ == "missing instructions.md in "@ + dir@
                        } else {
                            &&& r matches Ok(p)
                            &&& p.kind@ == meta.kind
                            &&& p.description@ == meta.description
                            &&& p.spawn_enabled == meta.spawn_enabled
                            &&& views(p.allowed_kinds@) == meta.allowed_kinds
                            &&& p.retries == meta.retries
                            &&& p.tool_block_retries == meta.tool_block_retries
                            &&& views(p.capabilities@) == caps
                            &&& views(p.skills@) == sk
                            &&& p.instructions_path@ == file_path(dir@, INSTRUCTIONS_FILE@)
                        },
                    },
                }
            },
        },
{
    let meta = match &files.agent_json {
        Err(e) => {
            return Err(document_error("reading ", dir, AGENT_FILE, e.as_str()));
        },
        Ok(t) => match parse_meta(t.as_str()) {
            Ok(meta) => meta,
            Err(e) => {
                return Err(document_error("parsing ", dir, AGENT_FILE, e.as_str()));
            },
        },
    };
    if !string_is(&meta.kind, dir_name) {
        let mut e = concat3("kind mismatch in ", dir, ": directory is '");
        e.append(dir_name);
        e.append("' but agent.json declares '");
        e.append(meta.kind.as_str());
        e.append("'");
        return Err(e);
    }
    let capabilities = match read_names_document(dir, CAPABILITIES_FILE, &files.capabilities_json, "capabilities") {
        Ok(names) => names,
        Err(e) => {
            return Err(e);
        },
    };
    let skills = match read_names_document(dir, SKILLS_FILE, &files.skills_json, "skills") {
        Ok(names) => names,
        Err(e) => {
            return Err(e);
        },
    };
    if !files.has_instructions {
        return Err(concat2("missing instructions.md in ", dir));
    }
    Ok(
        ParsedManifest {
            kind: meta.kind,
            description: meta.description,
            spawn_enabled: meta.spawn_enabled,
            allowed_kinds: meta.allowed_kinds,
            retries: meta.retries,
            tool_block_retries: meta.tool_block_retries,
            capabilities,
            skills,
            instructions_path: concat3(dir, "/", INSTRUCTIONS_FILE),
        },
    )
}

/// Lets a kind inherit the shared base: the base's names come first, and none
/// comes twice.
pub fn inherit_base(kind: &mut ParsedManifest, common: &CommonBase)
    ensures
        inherits(*final(kind), *old(kind), *common),
{
    let capabilities = merge_unique(&common.capabilities, &kind.capabilities);
    let skills = merge_unique(&common.skills, &kind.skills);
    kind.capabilities = capabilities;
    kind.skills = skills;
}

/// Whether a name stands before another, or is it, in the order of its characters.
pub open spec fn name_le(a: Seq<char>, b: Seq<char>) -> bool
    decreases a.len(),
{
    if a.len() == 0 {
        true
    } else if b.len() == 0 {
        false
    } else if a[0] != b[0] {
        (a[0] as int) < (b[0] as int)
    } else {
        name_le(a.drop_first(), b.drop_first())
    }
}

proof fn lemma_name_le_reflexive(a: Seq<char>)
    ensures
        name_le(a, a),
    decreases a.len(),
{
    if a.len() > 0 {
        lemma_name_le_reflexive(a.drop_first());
    }
}

proof fn lemma_name_le_total(a: Seq<char>, b: Seq<char>)
    ensures
        name_le(a, b) || name_le(b, a),
    decreases a.len(),
{
    if a.len() > 0 && b.len() > 0 && a[0] == b[0] {
        lemma_name_le_total(a.drop_first(), b.drop_first());
    }
}

proof fn lemma_name_le_transitive(a: Seq<char>, b: Seq<char>, c: Seq<char>)
    requires
        name_le(a, b),
        name_le(b, c),
    ensures
        name_le(a, c),
    decreases a.len(),
{
    if a.len() > 0 && b.len() > 0 && c.len() > 0 && a[0] == b[0] && b[0] == c[0] {
        lemma_name_le_transitive(a.drop_first(), b.drop_first(), c.drop_first());
    }
}

fn stands_before(c: char, d: char) -> (r: bool)
    ensures
        r == ((c as int) < (d as int)),
{
    (c as u32) < (d as u32)
}

fn name_at_most(a: &str, b: &str) -> (r: bool)
    ensures
        r == name_le(a@, b@),
{
    let x = chars_of(a);
    let y = chars_of(b);
    let mut i: usize = 0;
    assert(x@.skip(0) =~= x@ && y@.skip(0) =~= y@);
    while i < x.len()
        invariant
            x@ == a@,
            y@ == b@,
            i <= x@.len(),
            i <= y@.len(),
            name_le(a@, b@) == name_le(x@.skip(i as int), y@.skip(i as int)),
        decreases x@.len() - i,
    {
        if i >= y.len() {
            return false;
        }
        if x[i] != y[i] {
            return stands_before(x[i], y[i]);
        }
        proof {
            assert(x@.skip(i as int).drop_first() =~= x@.skip(i + 1));
            assert(y@.skip(i as int).drop_first() =~= y@.skip(i + 1));
        }
        i = i + 1;
    }
    true
}

/// Whether a kind is another that has inherited the shared base.
pub open spec fn inherits(kind: ParsedManifest, own: ParsedManifest, common: CommonBase) -> bool {
    &&& views(kind.capabilities@) == first_seen(views(common.capabilities@) + views(own.capabilities@))
    &&& views(kind.skills@) == first_seen(views(common.skills@) + views(own.skills@))
    &&& kind.kind == own.kind
    &&& kind.description == own.description
    &&& kind.spawn_enabled == own.spawn_enabled
    &&& kind.allowed_kinds == own.allowed_kinds
    &&& kind.retries == own.retries
    &&& kind.tool_block_retries == own.tool_block_retries
    &&& kind.instructions_path == own.instructions_path
}

/// Whether kinds are the given ones, each with the shared base, in the order of
/// their names. `order` says which of the given ones stands where; those of one name
/// keep their order.
pub open spec fn in_order(
    out: Seq<ParsedManifest>,
    kinds: Seq<ParsedManifest>,
    common: CommonBase,
    order: Seq<int>,
) -> bool {
    &&& out.len() == order.len()
    &&& order.no_duplicates()
    &&& forall|i: int|
        0 <= i < out.len() ==> 0 <= #[trigger] order[i] < kinds.len() && inherits(out[i], kinds[order[i]], common)
    &&& forall|i: int, j: int|
        #![trigger out[i], out[j]]
        0 <= i < j < out.len() ==> {
            &&& name_le(out[i].kind@, out[j].kind@)
            &&& out[i].kind@ == out[j].kind@ ==> order[i] < order[j]
        }
}

/// What the kinds of a directory come to: each inherits the shared base, and they
/// stand in the order of their names. There must be one.
pub fn resolve_kinds(agents_dir: &str, kinds: Vec<ParsedManifest>, common: &CommonBase) -> (r: Result<
    Vec<ParsedManifest>,
    String,
>)
    ensures
        match r {
            Ok(out) => {
                &&& kinds@.len() > 0
                &&& out@.len() == kinds@.len()
                &&& exists|order: Seq<int>| in_order(out@, kinds@, *common, order)
            },
            Err(e) => kinds@.len() == 0 && e@ == "no agent kinds found under "@ + agents_dir@,
        },
{
    if kinds.len() == 0 {
        return Err(concat2("no agent kinds found under ", agents_dir));
    }
    let ghost given = kinds@;
    let mut rest = kinds;
    let mut out: Vec<ParsedManifest> = Vec::new();
    let ghost mut order: Seq<int> = Seq::empty();
    while rest.len() > 0
        invariant
            rest@.len() + out@.len() == given.len(),
            rest@ == given.take(rest@.len() as int),
            in_order(out@, given, *common, order),
            forall|i: int| 0 <= i < order.len() ==> rest@.len() <= #[trigger] order[i],
        decreases rest@.len(),
    {
        let ghost at = rest@.len() - 1;
        let mut kind = rest.remove(rest.len() - 1);
        let ghost own = kind;
        inherit_base(&mut kind, common);
        let mut p: usize = 0;
        while p < out.len() && !name_at_most(kind.kind.as_str(), out[p].kind.as_str())
            invariant
                p <= out@.len(),
                forall|q: int| 0 <= q < p ==> !name_le(kind.kind@, #[trigger] out@[q].kind@),
            ensures
                p <= out@.len(),
                forall|q: int| 0 <= q < p ==> !name_le(kind.kind@, #[trigger] out@[q].kind@),
                p < out@.len() ==> name_le(kind.kind@, out@[p as int].kind@),
            decreases out@.len() - p,
        {
            p = p + 1;
        }
        let ghost before = out@;
        let ghost was = order;
        out.insert(p, kind);
        proof {
            order = order.insert(p as int, at as int);
            lemma_inserted(before, out@, given, *common, was, order, p as int, kind, at as int);
        }
    }
    assert(in_order(out@, given, *common, order));
    Ok(out)
}

/// Putting a kind that came before all of these at its place keeps the order.
proof fn lemma_inserted(
    before: Seq<ParsedManifest>,
    out: Seq<ParsedManifest>,
    kinds: Seq<ParsedManifest>,
    common: CommonBase,
    was: Seq<int>,
    order: Seq<int>,
    p: int,
    kind: ParsedManifest,
    at: int,
)
    requires
        in_order(before, kinds, common, was),
        0 <= p <= before.len(),
        out == before.insert(p, kind),
        order == was.insert(p, at),
        0 <= at < kinds.len(),
        inherits(kind, kinds[at], common),
        forall|i: int| 0 <= i < was.len() ==> at < #[trigger] was[i],
        forall|q: int| 0 <= q < p ==> !name_le(kind.kind@, #[trigger] before[q].kind@),
        p < before.len() ==> name_le(kind.kind@, before[p].kind@),
    ensures
        in_order(out, kinds, common, order),
        forall|i: int| 0 <= i < order.len() ==> at <= #[trigger] order[i],
{
    assert forall|i: int|
        0 <= i < out.len() implies 0 <= #[trigger] order[i] < kinds.len() && inherits(
        out[i],
        kinds[order[i]],
        common,
    ) && at <= order[i] by {
        if i < p {
            assert(order[i] == was[i]);
        } else if i > p {
            assert(order[i] == was[i - 1]);
            assert(out[i] == before[i - 1]);
        }
    }
    assert forall|i: int, j: int|
        #![trigger out[i], out[j]]
        0 <= i < j < out.len() implies {
        &&& name_le(out[i].kind@, out[j].kind@)
        &&& out[i].kind@ == out[j].kind@ ==> order[i] < order[j]
    } by {
        lemma_name_le_reflexive(kind.kind@);
        if j == p {
            lemma_name_le_total(kind.kind@, before[i].kind@);
        } else if i == p {
            let b = before[j - 1];
            assert(before[p] == before[p]);
            if p < j - 1 {
                assert(name_le(before[p].kind@, b.kind@));
                lemma_name_le_transitive(kind.kind@, before[p].kind@, b.kind@);
            }
            assert(order[j] == was[j - 1]);
        } else {
            let a = if i < p {
                i
            } else {
                i - 1
            };
            let b = if j < p {
                j
            } else {
                j - 1
            };
            assert(out[i] == before[a] && out[j] == before[b]);
            assert(order[i] == was[a] && order[j] == was[b]);
        }
    }
    assert(order.no_duplicates()) by {
        assert forall|i: int, j: int| 0 <= i < order.len() && 0 <= j < order.len() && i != j implies order[i]
            != order[j] by {
            if i != p {
                assert(order[i] == was[if i < p {
                    i
                } else {
                    i - 1
                }]);
            }
            if j != p {
                assert(order[j] == was[if j < p {
                    j
                } else {
                    j - 1
                }]);
            }
        }
    }
}

/// Whether a directory of this name holds a kind: hidden ones and the shared base do not.
pub fn is_kind_dir(name: &str) -> (r: bool)
    ensures
        r == !(has_prefix(name@, "."@) || name@ == "common"@),
{
    strip_prefix(name, ".").is_none() && !str_eq(name, "common")
}

/// A header that is taken says what its fields say, each under its own name; a field that
/// is missing or of the wrong kind is named.
pub proof fn law_header_says_what_its_fields_say(f: MetaFieldsV, m: MetaV)
    requires
        meta_of(f) == Ok::<MetaV, Seq<char>>(m),
    ensures
        u32_found(f.schema_version) is Some,
        text_found(f.kind) == Some(m.kind),
        text_found(f.description) == Some(m.description),
        f.spawn matches Some(spawn) && bool_found(spawn.enabled) == Some(m.spawn_enabled) && texts_found(
            spawn.allowed_kinds,
        ) == Some(m.allowed_kinds),
        f.runtime matches Some(runtime) && u32_found(runtime.retries) == Some(m.retries) && optional_u32(
            runtime.tool_block_retries,
        ) == Some(m.tool_block_retries),
{
}

/// The first field that keeps a header from being taken is the one that is named.
pub proof fn law_header_names_its_fault(f: MetaFieldsV, e: Seq<char>)
    requires
        meta_of(f) == Err::<MetaV, Seq<char>>(e),
    ensures
        u32_found(f.schema_version) is None ==> e == "schema_version"@,
        u32_found(f.schema_version) is Some && text_found(f.kind) is None ==> e == "kind"@,
        u32_found(f.schema_version) is Some && text_found(f.kind) is Some && text_found(f.description) is None ==> e
            == "description"@,
        u32_found(f.schema_version) is Some && text_found(f.kind) is Some && text_found(f.description) is Some ==> {
            &&& f.spawn is None ==> e == "spawn"@
            &&& f.spawn matches Some(spawn) ==> {
                &&& bool_found(spawn.enabled) is None ==> e == "spawn.enabled"@
                &&& bool_found(spawn.enabled) is Some && texts_found(spawn.allowed_kinds) is None ==> e
                    == "spawn.allowed_kinds"@
                &&& bool_found(spawn.enabled) is Some && texts_found(spawn.allowed_kinds) is Some ==> {
                    &&& f.runtime is None ==> e == "runtime"@
                    &&& f.runtime matches Some(runtime) ==> e == (if u32_found(runtime.retries) is None {
                        "runtime.retries"@
                    } else {
                        "runtime.tool_block_retries"@
                    })
                }
            }
        },
{
}

/// The parts of a header are found under their own names.
pub proof fn law_header_parts_have_their_names(text: Seq<char>, d: DocV, f: MetaFieldsV)
    requires
        meta_fields(text) == Some(f),
        doc_of(text) == Some(d),
    ensures
        f.schema_version == field(d, "schema_version"@, 0),
        f.kind == field(d, "kind"@, 1),
        f.description == field(d, "description"@, 2),
        f.spawn is Some <==> block(d, "spawn"@, 3, 2) is Some,
        block(d, "spawn"@, 3, 2) matches Some(b) ==> f.spawn->Some_0.enabled == field(b, "enabled"@, 0)
            && f.spawn->Some_0.allowed_kinds == field(b, "allowed_kinds"@, 1),
        f.runtime is Some <==> block(d, "runtime"@, 4, 2) is Some,
        block(d, "runtime"@, 4, 2) matches Some(b) ==> f.runtime->Some_0.retries == field(b, "retries"@, 0)
            && f.runtime->Some_0.tool_block_retries == field(b, "tool_block_retries"@, 1),
{
}

/// Merging keeps the order in which names first occur: what was merged before stays in
/// front.
pub proof fn law_merge_keeps_the_first_in_front(a: Seq<Seq<char>>, b: Seq<Seq<char>>)
    ensures
        first_seen(a).is_prefix_of(first_seen(a + b)),
        a.no_duplicates() ==> first_seen(a) == a,
    decreases b.len(), a.len(),
{
    if b.len() == 0 {
        assert(a + b =~= a);
        if a.len() > 0 {
            let front = a.drop_last();
            law_merge_keeps_the_first_in_front(front, b);
            if a.no_duplicates() {
                assert(front.no_duplicates()) by {
                    assert forall|i: int, j: int| 0 <= i < front.len() && 0 <= j < front.len() && i != j implies front[i]
                        != front[j] by {
                        assert(a[i] != a[j]);
                    }
                }
                assert(!front.contains(a.last())) by {
                    if front.contains(a.last()) {
                        let i = choose|i: int| 0 <= i < front.len() && front[i] == a.last();
                        assert(a[i] == a[a.len() - 1]);
                    }
                }
                assert(front.push(a.last()) =~= a);
            }
        }
    } else {
        let short = b.drop_last();
        law_merge_keeps_the_first_in_front(a, short);
        assert((a + b).drop_last() =~= a + short);
        assert((a + b).last() == b.last());
    }
}

/// A kind has what all kinds have, first, and then what is its own; all else is its own.
pub proof fn law_kind_has_what_all_have(kind: ParsedManifest, own: ParsedManifest, common: CommonBase, name: Seq<char>)
    requires
        inherits(kind, own, common),
    ensures
        views(kind.capabilities@).contains(name) <==> views(common.capabilities@).contains(name) || views(
            own.capabilities@,
        ).contains(name),
        views(kind.skills@).contains(name) <==> views(common.skills@).contains(name) || views(own.skills@).contains(
            name,
        ),
        first_seen(views(common.capabilities@)).is_prefix_of(views(kind.capabilities@)),
        first_seen(views(common.skills@)).is_prefix_of(views(kind.skills@)),
        kind.kind == own.kind,
        kind.description == own.description,
        kind.spawn_enabled == own.spawn_enabled,
        kind.allowed_kinds == own.allowed_kinds,
        kind.retries == own.retries,
        kind.tool_block_retries == own.tool_block_retries,
{
    let caps = views(common.capabilities@) + views(own.capabilities@);
    let skills = views(common.skills@) + views(own.skills@);
    law_merge_keeps_each_name_once(caps);
    law_merge_keeps_each_name_once(skills);
    law_merge_keeps_the_first_in_front(views(common.capabilities@), views(own.capabilities@));
    law_merge_keeps_the_first_in_front(views(common.skills@), views(own.skills@));
    assert(first_seen(caps).contains(name) <==> caps.contains(name));
    assert(first_seen(skills).contains(name) <==> skills.contains(name));
    lemma_concat_contains(views(common.capabilities@), views(own.capabilities@), name);
    lemma_concat_contains(views(common.skills@), views(own.skills@), name);
}

proof fn lemma_concat_contains(a: Seq<Seq<char>>, b: Seq<Seq<char>>, x: Seq<char>)
    ensures
        (a + b).contains(x) <==> a.contains(x) || b.contains(x),
{
    if a.contains(x) {
        let i = choose|i: int| 0 <= i < a.len() && a[i] == x;
        assert((a + b)[i] == x);
    }
    if b.contains(x) {
        let i = choose|i: int| 0 <= i < b.len() && b[i] == x;
        assert((a + b)[a.len() + i] == x);
    }
}

/// Names are in order letter by letter: a name comes before those that it begins, and
/// else the first letter in which two names differ decides.
pub proof fn law_names_are_ordered_by_letters(front: Seq<char>, a: Seq<char>, b: Seq<char>)
    ensures
        name_le(front, front + b),
        name_le(front + a, front + b) == name_le(a, b),
        a.len() > 0 && b.len() > 0 && a[0] != b[0] ==> (name_le(a, b) <==> a[0] < b[0]),
        a.len() > 0 ==> !name_le(a, Seq::empty()),
    decreases front.len(),
{
    if front.len() == 0 {
        assert(front + a =~= a);
        assert(front + b =~= b);
    } else {
        let rest = front.drop_first();
        law_names_are_ordered_by_letters(rest, a, b);
        assert((front + a).drop_first() =~= rest + a);
        assert((front + b).drop_first() =~= rest + b);
    }
}

/// A document that cannot be read, and one that makes no sense, are named by their path,
/// each with what is wrong; any other means what it says.
pub proof fn law_document_is_named_by_its_path<T>(
    dir: Seq<char>,
    file: Seq<char>,
    text: Result<String, String>,
    meaning: spec_fn(Seq<char>) -> Result<T, Seq<char>>,
)
    ensures
        text matches Err(e) ==> document(dir, file, text, meaning) == Err::<T, Seq<char>>(
            "reading "@ + (dir + "/"@ + file) + ": "@ + e@,
        ),
        text matches Ok(t) ==> (meaning(t@) matches Ok(x) ==> document(dir, file, text, meaning) == Ok::<T, Seq<char>>(
            x,
        )),
        text matches Ok(t) ==> (meaning(t@) matches Err(e) ==> document(dir, file, text, meaning) == Err::<
            T,
            Seq<char>,
        >("parsing "@ + (dir + "/"@ + file) + ": "@ + e)),
{
}

/// A kind that goes by another name than its directory is refused, and both are named.
pub proof fn law_misnamed_kind_is_named(dir: Seq<char>, name: Seq<char>, declared: Seq<char>)
    ensures
        kind_mismatch(dir, name, declared) == "kind mismatch in "@ + dir + ": directory is '"@ + name
            + "' but agent.json declares '"@ + declared + "'"@,
        field_error(name) == "missing or invalid field `"@ + name + "`"@,
{
}

/// A header is taken where its text is JSON, has the header's parts, and each part is of
/// its kind; any other is refused with what is wrong.
pub proof fn law_header_is_taken_where_it_is_whole(text: Seq<char>, m: MetaV)
    ensures
        meta_text(text) == Ok::<MetaV, Seq<char>>(m) <==> json_complaint(text) is None && (meta_fields(text) matches Some(
            f,
        ) && meta_of(f) == Ok::<MetaV, Seq<char>>(m)),
        json_complaint(text) matches Some(e) ==> meta_text(text) == Err::<MetaV, Seq<char>>(refusal(text, e)),
        json_complaint(text) is None ==> (meta_fields(text) matches Some(f) ==> (meta_of(f) matches Err(name)
            ==> meta_text(text) == Err::<MetaV, Seq<char>>(
            refusal(text, "missing or invalid field `"@ + name + "`"@),
        ))),
{
}

/// A list of names is taken as it stands, from a document that has a version; the part
/// that keeps it from being taken is named.
pub proof fn law_names_are_taken_as_they_stand(text: Seq<char>, d: DocV, key: Seq<char>)
    requires
        json_complaint(text) is None,
        doc_of(text) == Some(d),
        fits(d, 2),
    ensures
        names_text(text, key) is Ok <==> u32_found(field(d, "schema_version"@, 0)) is Some && texts_found(
            field(d, key, 1),
        ) is Some,
        names_text(text, key) matches Ok(names) ==> texts_found(field(d, key, 1)) == Some(names),
        u32_found(field(d, "schema_version"@, 0)) is None ==> names_text(text, key) == Err::<Seq<Seq<char>>, Seq<char>>(
            refusal(text, "missing or invalid field `"@ + "schema_version"@ + "`"@),
        ),
        u32_found(field(d, "schema_version"@, 0)) is Some && texts_found(field(d, key, 1)) is None ==> names_text(
            text,
            key,
        ) == Err::<Seq<Seq<char>>, Seq<char>>(refusal(text, "missing or invalid field `"@ + key + "`"@)),
{
}

/// The kinds stand in the order of their names, each as one of the given with what all
/// have, and those of one name as they were given.
pub proof fn law_kinds_stand_in_order(
    out: Seq<ParsedManifest>,
    kinds: Seq<ParsedManifest>,
    common: CommonBase,
    order: Seq<int>,
    i: int,
    j: int,
)
    requires
        in_order(out, kinds, common, order),
        0 <= i < j < out.len(),
    ensures
        name_le(out[i].kind@, out[j].kind@),
        out[i].kind == kinds[order[i]].kind,
        out[i].description == kinds[order[i]].description,
        out[i].allowed_kinds == kinds[order[i]].allowed_kinds,
        order[i] != order[j],
        out[i].kind@ == out[j].kind@ ==> order[i] < order[j],
{
    let first = out[i];
    let second = out[j];
    assert(0 <= order[i] < kinds.len());
    assert(0 <= order[j] < kinds.len());
}

} // verus!
