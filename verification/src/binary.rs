//! Classification of a payload by its leading bytes and by the engine's
//! probe for ahead-of-time compiled artifacts.

use vstd::prelude::*;

verus! {

/// The two source formats of WebAssembly.
#[derive(Clone, Copy, Debug, PartialEq, Eq, Structural)]
pub enum WasmBinaryType {
    /// A core module.
    Module,
    /// A component.
    Component,
}

/// What the engine's probe says of an artifact that it compiled earlier.
#[derive(Clone, Copy, Debug, PartialEq, Eq, Structural)]
pub enum Precompiled {
    /// The bytes look like a compiled core module.
    Module,
    /// The bytes look like a compiled component.
    Component,
}

/// The shape of a payload. Content that matches nothing is a case of its
/// own, so that the caller decides what to do with it.
#[derive(Clone, Copy, Debug, PartialEq, Eq, Structural)]
pub enum ClassifiedBinary {
    Module,
    Component,
    PrecompiledModule,
    PrecompiledComponent,
    Unrecognized,
}

/// The eight bytes that open a core module: the magic number `\0asm`,
/// version 1, layer 0, both little endian.
pub open spec fn module_header() -> Seq<u8> {
    seq![0x00u8, 0x61u8, 0x73u8, 0x6du8, 0x01u8, 0x00u8, 0x00u8, 0x00u8]
}

/// The eight bytes that open a component: the magic number `\0asm`,
/// version 13, layer 1, both little endian.
pub open spec fn component_header() -> Seq<u8> {
    seq![0x00u8, 0x61u8, 0x73u8, 0x6du8, 0x0du8, 0x00u8, 0x01u8, 0x00u8]
}

/// The four bytes that open an ELF object file.
pub open spec fn elf_magic() -> Seq<u8> {
    seq![0x7fu8, 0x45u8, 0x4cu8, 0x46u8]
}

/// `bytes` begins with `header`.
pub open spec fn starts_with(bytes: Seq<u8>, header: Seq<u8>) -> bool {
    header.len() <= bytes.len() && bytes.subrange(0, header.len() as int) == header
}

/// The source format that the leading bytes announce, if any.
pub open spec fn source_kind(bytes: Seq<u8>) -> Option<WasmBinaryType> {
    if starts_with(bytes, component_header()) {
        Some(WasmBinaryType::Component)
    } else if starts_with(bytes, module_header()) {
        Some(WasmBinaryType::Module)
    } else {
        None
    }
}

/// The shape of `bytes`, given what the engine's probe said of them. A source
/// header decides first; the probe is the second pass.
pub open spec fn classification(bytes: Seq<u8>, probe: Option<Precompiled>) -> ClassifiedBinary {
    match source_kind(bytes) {
        Some(WasmBinaryType::Module) => ClassifiedBinary::Module,
        Some(WasmBinaryType::Component) => ClassifiedBinary::Component,
        None => match probe {
            Some(Precompiled::Module) => ClassifiedBinary::PrecompiledModule,
            Some(Precompiled::Component) => ClassifiedBinary::PrecompiledComponent,
            None => ClassifiedBinary::Unrecognized,
        },
    }
}

/// An object file is no WebAssembly source: the first byte already differs.
pub proof fn lemma_elf_is_no_source(bytes: Seq<u8>)
    requires
        starts_with(bytes, elf_magic()),
    ensures
        source_kind(bytes) is None,
{
    assert(bytes.subrange(0, 4)[0] == elf_magic()[0]);
    if starts_with(bytes, component_header()) {
        assert(bytes.subrange(0, 8)[0] == component_header()[0]);
    }
    if starts_with(bytes, module_header()) {
        assert(bytes.subrange(0, 8)[0] == module_header()[0]);
    }
}

fn opens_with(bytes: &[u8], b4: u8, b6: u8) -> (yes: bool)
    ensures
        yes == starts_with(bytes@, seq![0x00u8, 0x61u8, 0x73u8, 0x6du8, b4, 0x00u8, b6, 0x00u8]),
{
    let ghost header = seq![0x00u8, 0x61u8, 0x73u8, 0x6du8, b4, 0x00u8, b6, 0x00u8];
    if bytes.len() < 8 {
        return false;
    }
    let yes = bytes[0] == 0x00 && bytes[1] == 0x61 && bytes[2] == 0x73 && bytes[3] == 0x6d
        && bytes[4] == b4 && bytes[5] == 0x00 && bytes[6] == b6 && bytes[7] == 0x00;
    proof {
        let head = bytes@.subrange(0, 8);
        if yes {
            assert(head =~= header);
        } else {
            assert(exists|i: int| 0 <= i < 8 && head[i] != header[i]) by {
                if bytes[0] != 0x00 {
                    assert(head[0] != header[0]);
                } else if bytes[1] != 0x61 {
                    assert(head[1] != header[1]);
                } else if bytes[2] != 0x73 {
                    assert(head[2] != header[2]);
                } else if bytes[3] != 0x6d {
                    assert(head[3] != header[3]);
                } else if bytes[4] != b4 {
                    assert(head[4] != header[4]);
                } else if bytes[5] != 0x00 {
                    assert(head[5] != header[5]);
                } else if bytes[6] != b6 {
                    assert(head[6] != header[6]);
                } else {
                    assert(head[7] != header[7]);
                }
            }
        }
    }
    yes
}

impl WasmBinaryType {
    /// Reads the source format off the first eight bytes.
    pub fn from_bytes(bytes: &[u8]) -> (kind: Option<WasmBinaryType>)
        ensures
            kind == source_kind(bytes@),
    {
        if opens_with(bytes, 0x0d, 0x01) {
            Some(WasmBinaryType::Component)
        } else if opens_with(bytes, 0x01, 0x00) {
            Some(WasmBinaryType::Module)
        } else {
            None
        }
    }
}

/// Classifies `bytes` from their header and from the probe's answer.
pub fn classify_probed(bytes: &[u8], probe: Option<Precompiled>) -> (shape: ClassifiedBinary)
    ensures
        shape == classification(bytes@, probe),
{
    match WasmBinaryType::from_bytes(bytes) {
        Some(WasmBinaryType::Module) => ClassifiedBinary::Module,
        Some(WasmBinaryType::Component) => ClassifiedBinary::Component,
        None => match probe {
            Some(Precompiled::Module) => ClassifiedBinary::PrecompiledModule,
            Some(Precompiled::Component) => ClassifiedBinary::PrecompiledComponent,
            None => ClassifiedBinary::Unrecognized,
        },
    }
}

} // verus!
