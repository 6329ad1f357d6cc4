use vstd::prelude::*;

use crate::error::Error;

verus! {

/// The deployable artifact before validation: either a path to a compiled
/// module on disk, or the module bytes already in memory.
pub enum Template {
    Path { path: String },
    Binary { bin: Vec<u8> },
}

pub ghost enum TemplateV {
    Path { path: Seq<char> },
    Binary { bin: Seq<u8> },
}

impl View for Template {
    type V = TemplateV;

    open spec fn view(&self) -> TemplateV {
        match self {
            Template::Path { path } => TemplateV::Path { path: path@ },
            Template::Binary { bin } => TemplateV::Binary { bin: bin@ },
        }
    }
}

/// A template that passed validation: the module bytes together with their
/// content hash. Produced by [`load_and_validate`].
pub struct ValidatedTemplate {
    pub bytes: Vec<u8>,
    pub hash: Vec<u8>,
}

pub ghost struct ValidatedTemplateV {
    pub bytes: Seq<u8>,
    pub hash: Seq<u8>,
}

impl View for ValidatedTemplate {
    type V = ValidatedTemplateV;

    open spec fn view(&self) -> ValidatedTemplateV {
        ValidatedTemplateV { bytes: self.bytes@, hash: self.hash@ }
    }
}

/// Whether the loader admits these bytes as a template module. Decided by
/// the engine's module loader; a function of the bytes alone.
pub uninterp spec fn wasm_template_ok(code: Seq<u8>) -> bool;

/// The 32-byte content hash of a template module. A function of the code
/// bytes alone: the same bytes hash the same wherever they came from.
pub uninterp spec fn template_hash(code: Seq<u8>) -> Seq<u8>;

/// Relies on tari_engine's `WasmModule::load_template_from_code`: parses and
/// compiles the bytes as a template module. Whether they are admitted
/// depends on the bytes alone; on refusal the loader's diagnostic is
/// returned rendered.
#[verifier::external_body]
fn load_wasm_template(code: &Vec<u8>) -> (r: Result<(), String>)
    ensures
        r is Ok <==> wasm_template_ok(code@),
{
    match tari_engine::wasm::WasmModule::load_template_from_code(code.as_slice()) {
        Ok(_) => Ok(()),
        Err(e) => Err(e.to_string()),
    }
}

/// Relies on tari_engine_types' `hash_template_code`: the domain-separated
/// 32-byte hash of the code bytes, a function of the bytes alone. The
/// hasher length-prefixes its input with a `u32` and panics on a longer
/// slice, so such input is excluded here.
#[verifier::external_body]
fn hash_template_code(code: &Vec<u8>) -> (r: Vec<u8>)
    requires
        code@.len() <= u32::MAX,
    ensures
        r@ == template_hash(code@),
        r@.len() == 32,
{
    tari_engine_types::hashing::hash_template_code(code.as_slice())
        .as_slice()
        .to_vec()
}

/// The content hash of module bytes, as recorded in a
/// [`ValidatedTemplate`]: 32 bytes, a function of the input alone. The
/// hasher takes at most `u32::MAX` bytes.
pub fn compute_template_hash(code: &Vec<u8>) -> (r: Vec<u8>)
    requires
        code@.len() <= u32::MAX,
    ensures
        r@ == template_hash(code@),
        r@.len() == 32,
{
    hash_template_code(code)
}

/// The module bytes a template stands for: the bytes read from its file for
/// the path variant (reading is the embedder's, so they arrive as an
/// argument), its own bytes for the binary variant.
pub open spec fn spec_source_bytes(template: Template, file_bytes: Option<Vec<u8>>) -> Seq<u8> {
    match template {
        Template::Path { .. } => match file_bytes {
            Some(b) => b@,
            None => Seq::empty(),
        },
        Template::Binary { bin } => bin@,
    }
}

/// The Loader: takes the template's bytes (for the path variant, the bytes
/// its file holds, read by the embedder and passed in), validates them as a
/// template module and computes their content hash. The hash depends on the
/// bytes alone, never on which variant supplied them. The hasher takes at
/// most `u32::MAX` bytes, so longer modules are excluded up front.
pub fn load_and_validate(template: Template, file_bytes: Option<Vec<u8>>) -> (r: Result<
    ValidatedTemplate,
    Error,
>)
    requires
        template is Path <==> file_bytes is Some,
        spec_source_bytes(template, file_bytes).len() <= u32::MAX,
    ensures
        r is Ok <==> wasm_template_ok(spec_source_bytes(template, file_bytes)),
        r matches Ok(v) ==> {
            &&& v@.bytes == spec_source_bytes(template, file_bytes)
            &&& v@.hash == template_hash(spec_source_bytes(template, file_bytes))
            &&& v@.hash.len() == 32
        },
        r is Err ==> r matches Err(Error::InvalidTemplate { .. }),
{
    let bytes: Vec<u8> = match template {
        Template::Path { path: _ } => match file_bytes {
            Some(b) => b,
            None => Vec::new(),
        },
        Template::Binary { bin } => bin,
    };
    match load_wasm_template(&bytes) {
        Ok(()) => {
            let hash = hash_template_code(&bytes);
            Ok(ValidatedTemplate { bytes, hash })
        },
        Err(message) => Err(Error::InvalidTemplate { message }),
    }
}

/// Law: a loaded template's content hash is a function of the module bytes
/// alone. Two successful loads of the same bytes — one through a file path,
/// one from memory — carry identical hashes.
pub proof fn lemma_hash_source_independent(
    ta: Template,
    fa: Option<Vec<u8>>,
    tb: Template,
    fb: Option<Vec<u8>>,
    va: ValidatedTemplate,
    vb: ValidatedTemplate,
)
    requires
        spec_source_bytes(ta, fa) == spec_source_bytes(tb, fb),
        va@.hash == template_hash(spec_source_bytes(ta, fa)),
        vb@.hash == template_hash(spec_source_bytes(tb, fb)),
    ensures
        va@.hash == vb@.hash,
{
}

} // verus!
