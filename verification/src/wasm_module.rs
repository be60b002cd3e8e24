//! Plugin sandbox host: loads one untrusted bytecode module per plugin,
//! reads its self-declared geometry, and executes its render entry point,
//! copying only the declared pixel payload out of the module's private
//! linear memory.
//!
//! Every pointer the module hands back is treated as untrusted input: the
//! host validates the full payload range against the module's currently
//! mapped memory before copying, and never keeps a reference into module
//! memory past the copy.

use vstd::prelude::*;

use crate::matrix::{spec_from_picture, Matrix};
use crate::picture::Picture;

verus! {

/// Failure kinds of loading or rendering a sandboxed module. Load and
/// render failures are distinguishable so the caller can report which
/// plugin failed and why before deciding what to do about it.
#[derive(Debug, Clone, Copy, PartialEq, Eq, Structural)]
pub enum WasmError {
    /// The module bytes did not compile.
    CompileFailure,
    /// The module could not be instantiated against the host import surface.
    InstantiationFailure,
    /// The module carries no `metadata` custom section.
    NoCustomSection,
    /// The `metadata` custom section is not the expected structure.
    InvalidCustomSection,
    /// The module exports no `draw` function of the expected signature.
    MissingDrawExport,
    /// The `draw` call trapped during execution.
    RenderFailure,
    /// The module exports no linear memory named `memory`.
    MissingMemoryExport,
    /// The declared pixel payload does not fit the module's mapped memory.
    PictureOutOfBounds,
    /// Copying the pixel payload out of the module's memory failed.
    MemoryAccessFailure,
}

/// Self-declared geometry of a plugin module, read once at load time from
/// the module's `metadata` custom section and immutable afterwards. The
/// name is descriptive only; it is not re-validated against configuration.
#[derive(Debug)]
pub struct Metadata {
    pub height: usize,
    pub width: usize,
    pub name: String,
}

/// One loaded plugin module: its compiled instance, the store it runs in,
/// and the geometry it declared at load time.
pub struct WasmModule {
    instance: wasmer::Instance,
    store: wasmer::Store,
    metadata: Metadata,
}

#[verifier::external_type_specification]
#[verifier::external_body]
pub struct ExStore(wasmer::Store);

#[verifier::external_type_specification]
#[verifier::external_body]
pub struct ExModule(wasmer::Module);

#[verifier::external_type_specification]
#[verifier::external_body]
pub struct ExInstance(wasmer::Instance);

#[verifier::external_type_specification]
#[verifier::external_body]
pub struct ExImports(wasmer::Imports);

#[verifier::external_type_specification]
#[verifier::external_body]
pub struct ExCompileError(wasmer::CompileError);

#[verifier::external_type_specification]
#[verifier::external_body]
pub struct ExInstantiationError(wasmer::InstantiationError);

#[verifier::external_type_specification]
#[verifier::external_body]
pub struct ExExportError(wasmer::ExportError);

#[verifier::external_type_specification]
#[verifier::external_body]
pub struct ExRuntimeError(wasmer::RuntimeError);

#[verifier::external_type_specification]
#[verifier::external_body]
pub struct ExMemoryAccessError(wasmer::MemoryAccessError);

/// The contents of the first custom section of the given name in a
/// bytecode module: the wasm binary format fixes them as a function of the
/// module bytes and the section name alone.
pub uninterp spec fn custom_section_of(bytes: Seq<u8>, name: Seq<char>) -> Option<Seq<u8>>;

/// The three geometry fields held by a metadata section: the `width` and
/// `height` members as unsigned integers and the `name` member as a
/// string, each absent when the section is not a JSON object carrying such
/// a member. A function of the section bytes alone.
pub uninterp spec fn metadata_fields_of(section: Seq<u8>) -> (
    Option<u64>,
    Option<u64>,
    Option<Seq<char>>,
);

/// All three metadata fields of the section are present and both declared
/// dimensions are machine representable.
pub open spec fn metadata_fields_complete(section: Seq<u8>) -> bool {
    let fields = metadata_fields_of(section);
    &&& fields.0 is Some
    &&& fields.1 is Some
    &&& fields.2 is Some
    &&& fields.0->Some_0 <= usize::MAX as u64
    &&& fields.1->Some_0 <= usize::MAX as u64
}

/// Relies on wasmer::Module::new and wasmer::Module::custom_sections:
/// compiles the bytes with the engine the store was built with (Err when
/// they are not a valid module), and hands back the first custom section
/// of the given name, whose contents the binary format fixes as
/// `custom_section_of` of the bytes.
#[verifier::external_body]
fn compile_with_custom_section(store: &wasmer::Store, bytes: &Vec<u8>, name: &str) -> (r: Result<
    (wasmer::Module, Option<Vec<u8>>),
    wasmer::CompileError,
>)
    ensures
        r matches Ok(p) ==> {
            &&& (p.1 is Some <==> custom_section_of(bytes@, name@) is Some)
            &&& (p.1 matches Some(s) ==> custom_section_of(bytes@, name@) == Some(s@))
        },
{
    match wasmer::Module::new(store, bytes.as_slice()) {
        Ok(module) => {
            let section = module.custom_sections(name).next().map(|s| s.into_vec());
            Ok((module, section))
        },
        Err(err) => Err(err),
    }
}

/// Relies on wasmer::Instance::new: instantiates the compiled module
/// against the given imports; Err when an import is missing or has the
/// wrong type, or when the module's start function traps. The imports must
/// have been built in the given store: wasmer resolves them through that
/// store's object list.
#[verifier::external_body]
fn instantiate_module(
    store: &mut wasmer::Store,
    module: &wasmer::Module,
    imports: &wasmer::Imports,
) -> Result<wasmer::Instance, wasmer::InstantiationError> {
    wasmer::Instance::new(store, module, imports)
}

/// Relies on serde_json::from_slice, Value::get, Value::as_u64 and
/// Value::as_str: decodes the section as one JSON object and extracts its
/// `width`, `height` and `name` members, a pure function of the section
/// bytes named `metadata_fields_of`. A section that is no JSON object, or
/// an absent or wrongly typed member, yields None in that position.
#[verifier::external_body]
fn decode_metadata_section(section: &Vec<u8>) -> (r: (Option<u64>, Option<u64>, Option<String>))
    ensures
        r.0 == metadata_fields_of(section@).0,
        r.1 == metadata_fields_of(section@).1,
        r.2 is Some <==> metadata_fields_of(section@).2 is Some,
        r.2 matches Some(n) ==> metadata_fields_of(section@).2 == Some(n@),
{
    match serde_json::from_slice::<serde_json::Value>(section.as_slice()) {
        Ok(value) => (
            value.get("width").and_then(|v| v.as_u64()),
            value.get("height").and_then(|v| v.as_u64()),
            value.get("name").and_then(|v| v.as_str()).map(|s| s.to_string()),
        ),
        Err(_) => (None, None, None),
    }
}

/// True exactly when a payload of `width * height` bytes starting at
/// `offset` lies within a mapped memory of `memory_size` bytes. This is the
/// host-side validation of the pointer a module returned: it must hold
/// before any byte is copied out.
pub fn payload_in_bounds(offset: u32, width: usize, height: usize, memory_size: u64) -> (r: bool)
    ensures
        r == (offset + width * height <= memory_size),
{
    let payload = match (width as u64).checked_mul(height as u64) {
        Some(p) => p,
        None => {
            return false;
        },
    };
    match (offset as u64).checked_add(payload) {
        Some(end) => end <= memory_size,
        None => false,
    }
}

impl Metadata {
    /// Geometry decoded from the values found in the metadata section: all
    /// three fields must be present, and both dimensions must be machine
    /// representable; any other shape makes the section invalid.
    pub fn from_values(width: Option<u64>, height: Option<u64>, name: Option<String>) -> (r: Result<
        Metadata,
        WasmError,
    >)
        ensures
            r matches Ok(m) ==> {
                &&& width == Some(m.width as u64)
                &&& height == Some(m.height as u64)
                &&& name == Some(m.name)
            },
            r is Ok <==> {
                &&& width is Some
                &&& height is Some
                &&& name is Some
                &&& width->Some_0 <= usize::MAX as u64
                &&& height->Some_0 <= usize::MAX as u64
            },
            r matches Err(e) ==> e == WasmError::InvalidCustomSection,
    {
        let w = match width {
            Some(w) => w,
            None => {
                return Err(WasmError::InvalidCustomSection);
            },
        };
        let h = match height {
            Some(h) => h,
            None => {
                return Err(WasmError::InvalidCustomSection);
            },
        };
        let n = match name {
            Some(n) => n,
            None => {
                return Err(WasmError::InvalidCustomSection);
            },
        };
        if w > usize::MAX as u64 || h > usize::MAX as u64 {
            return Err(WasmError::InvalidCustomSection);
        }
        Ok(Metadata { height: h as usize, width: w as usize, name: n })
    }

    /// Decodes the raw bytes of a `metadata` custom section: they must be a
    /// JSON object with integer `width` and `height` and a string `name`,
    /// exactly when decoding succeeds; the result carries those values.
    pub fn from_section(section: &Vec<u8>) -> (r: Result<Metadata, WasmError>)
        ensures
            r is Ok <==> metadata_fields_complete(section@),
            r matches Ok(m) ==> {
                let fields = metadata_fields_of(section@);
                &&& fields.0 == Some(m.width as u64)
                &&& fields.1 == Some(m.height as u64)
                &&& fields.2 == Some(m.name@)
            },
            r matches Err(e) ==> e == WasmError::InvalidCustomSection,
    {
        let (width, height, name) = decode_metadata_section(section);
        Metadata::from_values(width, height, name)
    }
}

impl WasmModule {
    /// The geometry the module declared at load time.
    pub closed spec fn spec_metadata(&self) -> Metadata {
        self.metadata
    }

    /// The geometry the module declared at load time.
    pub fn metadata(&self) -> (r: &Metadata)
        ensures
            r == self.spec_metadata(),
    {
        &self.metadata
    }

    /// Load protocol: compile the bytes, read the self-declared geometry
    /// from the `metadata` custom section, and instantiate the module
    /// against the host import surface. Each step that fails names its
    /// failure; a module without declared geometry cannot be placed. A
    /// loaded module carries exactly the geometry its section declares.
    pub fn load(store: wasmer::Store, bytes: &Vec<u8>, imports: &wasmer::Imports) -> (r: Result<
        WasmModule,
        WasmError,
    >)
        ensures
            r matches Ok(wm) ==> {
                let section = custom_section_of(bytes@, "metadata"@);
                let fields = metadata_fields_of(section->Some_0);
                &&& section is Some
                &&& fields.0 == Some(wm.spec_metadata().width as u64)
                &&& fields.1 == Some(wm.spec_metadata().height as u64)
                &&& fields.2 == Some(wm.spec_metadata().name@)
            },
            r == Err::<WasmModule, WasmError>(WasmError::NoCustomSection) ==> custom_section_of(
                bytes@,
                "metadata"@,
            ) is None,
            r == Err::<WasmModule, WasmError>(WasmError::InvalidCustomSection) ==> {
                let section = custom_section_of(bytes@, "metadata"@);
                &&& section is Some
                &&& !metadata_fields_complete(section->Some_0)
            },
            r matches Err(e) ==> {
                ||| e == WasmError::CompileFailure
                ||| e == WasmError::NoCustomSection
                ||| e == WasmError::InvalidCustomSection
                ||| e == WasmError::InstantiationFailure
            },
    {
        let mut store = store;
        let (module, section) = match compile_with_custom_section(&store, bytes, "metadata") {
            Ok(p) => p,
            Err(_) => {
                return Err(WasmError::CompileFailure);
            },
        };
        let section = match section {
            Some(s) => s,
            None => {
                return Err(WasmError::NoCustomSection);
            },
        };
        let metadata = match Metadata::from_section(&section) {
            Ok(m) => m,
            Err(e) => {
                return Err(e);
            },
        };
        let instance = match instantiate_module(&mut store, &module, imports) {
            Ok(i) => i,
            Err(_) => {
                return Err(WasmError::InstantiationFailure);
            },
        };
        Ok(WasmModule { instance, store, metadata })
    }

    /// Relies on wasmer::Exports::get_typed_function and
    /// wasmer::TypedFunction::call: looks the module's exported function of
    /// the given name up (outer Err when it is absent or has another
    /// signature than no arguments and one pointer-sized result) and runs
    /// it (inner Err is a trap raised during execution). Handles and store
    /// both come from this loaded module, so they cannot be mismatched.
    /// The module's declared geometry is left untouched.
    #[verifier::external_body]
    fn call_pointer_export(&mut self, name: &str) -> (r: Result<
        Result<u32, wasmer::RuntimeError>,
        wasmer::ExportError,
    >)
        ensures
            final(self).spec_metadata() == old(self).spec_metadata(),
    {
        match self.instance.exports.get_typed_function::<(), u32>(&self.store, name) {
            Ok(f) => Ok(f.call(&mut self.store)),
            Err(err) => Err(err),
        }
    }

    /// Relies on wasmer::Exports::get_memory, wasmer::Memory::view and
    /// wasmer::MemoryView::data_size: the size in bytes of the currently
    /// mapped linear memory the module exports under the given name; Err
    /// when no such memory is exported. Memory and store both come from
    /// this loaded module, so they cannot be mismatched.
    #[verifier::external_body]
    fn exported_memory_size(&self, name: &str) -> Result<u64, wasmer::ExportError> {
        match self.instance.exports.get_memory(name) {
            Ok(memory) => Ok(memory.view(&self.store).data_size()),
            Err(err) => Err(err),
        }
    }

    /// Relies on wasmer::Exports::get_memory, wasmer::Memory::view and
    /// wasmer::MemoryView::copy_range_to_vec: copies the byte range out of
    /// the module's exported memory into a host-owned buffer. The copy is
    /// clamped to the mapped size, so the result never holds more than the
    /// requested range. Memory and store both come from this loaded module,
    /// so they cannot be mismatched.
    #[verifier::external_body]
    fn copy_exported_memory(&self, name: &str, start: u64, end: u64) -> (r: Result<
        Result<Vec<u8>, wasmer::MemoryAccessError>,
        wasmer::ExportError,
    >)
        requires
            start <= end,
        ensures
            r matches Ok(c) ==> (c matches Ok(bytes) ==> bytes@.len() <= end - start),
    {
        match self.instance.exports.get_memory(name) {
            Ok(memory) => Ok(memory.view(&self.store).copy_range_to_vec(start..end)),
            Err(err) => Err(err),
        }
    }

    /// Render protocol: call the module's `draw` entry point, validate the
    /// returned pointer against the module's mapped memory, copy exactly
    /// `width * height` bytes out, and turn them into a grid fragment, so
    /// any rendered frame is some declared-size picture placed at the
    /// origin — zero outside the declared block. No reference into module
    /// memory survives the copy.
    pub fn render(&mut self) -> (r: Result<Matrix, WasmError>)
        ensures
            r matches Ok(m) ==> m.wf(),
            r matches Ok(m) ==> exists|picture: Seq<u8>|
                {
                    &&& picture.len() == old(self).spec_metadata().width * old(
                        self,
                    ).spec_metadata().height
                    &&& m@ == spec_from_picture(
                        picture,
                        old(self).spec_metadata().width as int,
                        old(self).spec_metadata().height as int,
                    )
                },
            final(self).spec_metadata() == old(self).spec_metadata(),
            r matches Err(e) ==> {
                ||| e == WasmError::MissingDrawExport
                ||| e == WasmError::RenderFailure
                ||| e == WasmError::MissingMemoryExport
                ||| e == WasmError::PictureOutOfBounds
                ||| e == WasmError::MemoryAccessFailure
            },
    {
        let width = self.metadata.width;
        let height = self.metadata.height;
        let picture_ptr = match self.call_pointer_export("draw") {
            Ok(Ok(p)) => p,
            Ok(Err(_)) => {
                return Err(WasmError::RenderFailure);
            },
            Err(_) => {
                return Err(WasmError::MissingDrawExport);
            },
        };
        let memory_size = match self.exported_memory_size("memory") {
            Ok(s) => s,
            Err(_) => {
                return Err(WasmError::MissingMemoryExport);
            },
        };
        if !payload_in_bounds(picture_ptr, width, height, memory_size) {
            return Err(WasmError::PictureOutOfBounds);
        }
        let payload = (width as u64) * (height as u64);
        let start = picture_ptr as u64;
        let end = start + payload;
        let bytes = match self.copy_exported_memory("memory", start, end) {
            Ok(Ok(b)) => b,
            Ok(Err(_)) => {
                return Err(WasmError::MemoryAccessFailure);
            },
            Err(_) => {
                return Err(WasmError::MissingMemoryExport);
            },
        };
        // The copy is clamped to the mapped size; a short result means the
        // memory shrank between the validation and the copy.
        if (bytes.len() as u64) != payload {
            return Err(WasmError::MemoryAccessFailure);
        }
        let ghost picture = bytes@;
        match Matrix::from_picture(bytes, width, height) {
            Ok(m) => {
                proof {
                    assert(picture.len() == width * height);
                    assert(m@ == spec_from_picture(picture, width as int, height as int));
                }
                Ok(m)
            },
            Err(_) => vstd::pervasive::unreached(),
        }
    }
}

impl Picture for WasmModule {
    /// Delegates to the render protocol; the fragment sits at the origin,
    /// scaled to the module's declared dimensions.
    fn draw(&mut self) -> (r: Result<Matrix, WasmError>) {
        self.render()
    }
}

} // verus!
