//! Modules: the header and the sequence of sections.
//! <https://webassembly.github.io/spec/core/binary/modules.html>
use super::error::DecodeError;
use super::instruction::{ImmediateV, Opcode};
use super::reader::{spec_byte, spec_bytes, spec_u32, SectionReader};
use super::section::{decode, spec_section, spec_section_id, Section, SectionID, SectionV};
use super::types::{
    views, Custom, Data, Element, Export, ExportDesc, Expr, FuncType, FunctionBody, FunctionLocal,
    Global, Import, ImportKind, Memory, Table, ValueType,
};
use crate::endian::{le_value, lemma_le_value_bound, lemma_pow256_values, read_le};
use vstd::prelude::*;

verus! {

#[derive(Debug, PartialEq)]
pub struct Module {
    pub magic: String,
    pub version: u32,
    pub custom_section: Option<Custom>,
    pub type_section: Option<Vec<FuncType>>,
    pub import_section: Option<Vec<Import>>,
    pub function_section: Option<Vec<u32>>,
    pub table_section: Option<Vec<Table>>,
    pub memory_section: Option<Vec<Memory>>,
    pub global_section: Option<Vec<Global>>,
    pub export_section: Option<Vec<Export>>,
    pub start_section: Option<u32>,
    pub element_section: Option<Vec<Element>>,
    pub data: Option<Vec<Data>>,
    pub code_section: Option<Vec<FunctionBody>>,
}

/// A module with its vectors as sequences of views.
pub struct ModuleV {
    pub magic: Seq<char>,
    pub version: u32,
    pub custom_section: Option<(Seq<char>, Seq<u8>)>,
    pub type_section: Option<Seq<(Seq<ValueType>, Seq<ValueType>)>>,
    pub import_section: Option<Seq<(Seq<char>, Seq<char>, ImportKind)>>,
    pub function_section: Option<Seq<u32>>,
    pub table_section: Option<Seq<Table>>,
    pub memory_section: Option<Seq<Memory>>,
    pub global_section: Option<Seq<Global>>,
    pub export_section: Option<Seq<(Seq<char>, ExportDesc)>>,
    pub start_section: Option<u32>,
    pub element_section: Option<Seq<(u32, Expr, Seq<u32>)>>,
    pub data: Option<Seq<(u32, Expr, Seq<u8>)>>,
    pub code_section: Option<Seq<(Seq<FunctionLocal>, Seq<(Opcode, ImmediateV)>)>>,
}

/// The views of an optional vector.
pub open spec fn opt_views<T: View>(v: Option<Vec<T>>) -> Option<Seq<T::V>> {
    match v {
        Some(items) => Some(views(items@)),
        None => None,
    }
}

/// An optional vector as a sequence.
pub open spec fn opt_seq<T>(v: Option<Vec<T>>) -> Option<Seq<T>> {
    match v {
        Some(items) => Some(items@),
        None => None,
    }
}

impl View for Module {
    type V = ModuleV;

    open spec fn view(&self) -> ModuleV {
        ModuleV {
            magic: self.magic@,
            version: self.version,
            custom_section: match self.custom_section {
                Some(c) => Some(c@),
                None => None,
            },
            type_section: opt_views(self.type_section),
            import_section: opt_views(self.import_section),
            function_section: opt_seq(self.function_section),
            table_section: opt_seq(self.table_section),
            memory_section: opt_seq(self.memory_section),
            global_section: opt_seq(self.global_section),
            export_section: opt_views(self.export_section),
            start_section: self.start_section,
            element_section: opt_views(self.element_section),
            data: opt_views(self.data),
            code_section: opt_views(self.code_section),
        }
    }
}

/// The module after a section is added: the section takes the place of any
/// earlier section of the same kind.
pub open spec fn spec_add_section(m: ModuleV, s: SectionV) -> ModuleV {
    match s {
        SectionV::Custom(c) => ModuleV { custom_section: Some(c), ..m },
        SectionV::Type(v) => ModuleV { type_section: Some(v), ..m },
        SectionV::Import(v) => ModuleV { import_section: Some(v), ..m },
        SectionV::Function(v) => ModuleV { function_section: Some(v), ..m },
        SectionV::Table(v) => ModuleV { table_section: Some(v), ..m },
        SectionV::Memory(v) => ModuleV { memory_section: Some(v), ..m },
        SectionV::Global(v) => ModuleV { global_section: Some(v), ..m },
        SectionV::Export(v) => ModuleV { export_section: Some(v), ..m },
        SectionV::Start(i) => ModuleV { start_section: Some(i), ..m },
        SectionV::Element(v) => ModuleV { element_section: Some(v), ..m },
        SectionV::Data(v) => ModuleV { data: Some(v), ..m },
        SectionV::Code(v) => ModuleV { code_section: Some(v), ..m },
    }
}

/// A module with the given header and no sections.
pub open spec fn spec_empty_module(magic: Seq<char>, version: u32) -> ModuleV {
    ModuleV {
        magic,
        version,
        custom_section: None,
        type_section: None,
        import_section: None,
        function_section: None,
        table_section: None,
        memory_section: None,
        global_section: None,
        export_section: None,
        start_section: None,
        element_section: None,
        data: None,
        code_section: None,
    }
}

impl Module {
    /// A module with the given header and no sections.
    pub fn new(magic: String, version: u32) -> (m: Module)
        ensures
            m@ == spec_empty_module(magic@, version),
    {
        Module {
            magic,
            version,
            custom_section: None,
            type_section: None,
            import_section: None,
            function_section: None,
            table_section: None,
            memory_section: None,
            global_section: None,
            export_section: None,
            start_section: None,
            element_section: None,
            data: None,
            code_section: None,
        }
    }

    pub fn add_section(&mut self, section: Section)
        ensures
            final(self)@ == spec_add_section(old(self)@, section@),
    {
        match section {
            Section::Custom(section) => self.custom_section = Some(section),
            Section::Type(section) => self.type_section = Some(section),
            Section::Import(section) => self.import_section = Some(section),
            Section::Function(section) => self.function_section = Some(section),
            Section::Table(section) => self.table_section = Some(section),
            Section::Memory(section) => self.memory_section = Some(section),
            Section::Global(section) => self.global_section = Some(section),
            Section::Export(section) => self.export_section = Some(section),
            Section::Code(section) => self.code_section = Some(section),
            Section::Element(section) => self.element_section = Some(section),
            Section::Data(section) => self.data = Some(section),
            Section::Start(section) => self.start_section = Some(section),
        };
    }
}

/// The bytes of the magic number, "\0asm".
pub open spec fn magic_bytes() -> Seq<u8> {
    seq![0x00u8, 0x61u8, 0x73u8, 0x6du8]
}

/// A section header: the id byte, then the size of the contents.
pub open spec fn spec_section_header(s: Seq<u8>, p: int) -> Result<((SectionID, u32), int), DecodeError> {
    match spec_byte(s, p) {
        Ok((b, q)) => match spec_section_id(b) {
            Some(id) => match spec_u32(s, q) {
                Ok((size, r)) => Ok(((id, size), r)),
                Err(e) => Err(e),
            },
            None => Err(DecodeError::InvalidSectionId(b)),
        },
        Err(e) => Err(e),
    }
}

/// The sections from `p` to the end of `s`, added in turn to `m`.
pub open spec fn spec_sections_from(s: Seq<u8>, p: int, m: ModuleV) -> Result<ModuleV, DecodeError>
    decreases s.len() - p,
{
    if !(0 <= p < s.len()) {
        Ok(m)
    } else {
        match spec_section_header(s, p) {
            Ok(((id, size), q)) => match spec_bytes(s, q, size as int) {
                Ok((contents, r)) => match spec_section(id, contents) {
                    Ok(sec) => if p < r <= s.len() {
                        spec_sections_from(s, r, spec_add_section(m, sec))
                    } else {
                        Err(DecodeError::UnexpectedEof)
                    },
                    Err(e) => Err(e),
                },
                Err(e) => Err(e),
            },
            Err(e) => Err(e),
        }
    }
}

/// A whole module: the magic number, version 1, then sections to the end.
pub open spec fn spec_module(s: Seq<u8>) -> Result<ModuleV, DecodeError> {
    match spec_bytes(s, 0, 4) {
        Ok((magic, p)) => if magic != magic_bytes() {
            Err(DecodeError::InvalidMagic)
        } else {
            match spec_bytes(s, p, 4) {
                Ok((version, q)) => if le_value(version) != 1 {
                    Err(DecodeError::InvalidVersion)
                } else {
                    spec_sections_from(s, q, spec_empty_module("\0asm"@, 1))
                },
                Err(e) => Err(e),
            }
        },
        Err(e) => Err(e),
    }
}

/// A module begins with the magic number 0x00 0x61 0x73 0x6d ("\0asm") and
/// the version 1 in four little-endian bytes: other first bytes are an
/// invalid magic number, another version is an invalid version, and the
/// eight bytes alone are the empty module.
pub proof fn lemma_module_header(s: Seq<u8>)
    ensures
        s.len() >= 4 && !(s[0] == 0x00 && s[1] == 0x61 && s[2] == 0x73 && s[3] == 0x6d)
            ==> spec_module(s) == Err::<ModuleV, DecodeError>(DecodeError::InvalidMagic),
        s.len() >= 8 && s[0] == 0x00 && s[1] == 0x61 && s[2] == 0x73 && s[3] == 0x6d && !(s[4] == 1 && s[5] == 0 && s[6] == 0 && s[7] == 0)
            ==> spec_module(s) == Err::<ModuleV, DecodeError>(DecodeError::InvalidVersion),
        s =~= seq![0x00u8, 0x61u8, 0x73u8, 0x6du8, 1u8, 0u8, 0u8, 0u8]
            ==> spec_module(s) == Ok::<ModuleV, DecodeError>(spec_empty_module("\0asm"@, 1)),
{
    if s.len() >= 4 {
        let m = s.subrange(0, 4);
        if !(s[0] == 0x00 && s[1] == 0x61 && s[2] == 0x73 && s[3] == 0x6d) {
            assert(m != magic_bytes()) by {
                if m == magic_bytes() {
                    assert(m[0] == s[0] && m[1] == s[1] && m[2] == s[2] && m[3] == s[3]);
                }
            }
        } else {
            assert(m =~= magic_bytes());
            if s.len() >= 8 {
                let v = s.subrange(4, 8);
                reveal_with_fuel(le_value, 5);
                assert(v[0] == s[4] && v[1] == s[5] && v[2] == s[6] && v[3] == s[7]);
                assert(v.drop_first().drop_first().drop_first().drop_first().len() == 0);
                lemma_le_value_bound(v.drop_first());
                lemma_le_value_bound(v.drop_first().drop_first());
                lemma_le_value_bound(v.drop_first().drop_first().drop_first());
            }
        }
    }
}

/// A decoder of modules in the binary format.
pub struct Decoder<'a> {
    reader: SectionReader<'a>,
}

impl<'a> Decoder<'a> {
    /// The bytes being decoded.
    pub closed spec fn data(&self) -> Seq<u8> {
        self.reader.data()
    }

    /// The position of the next byte to read.
    pub closed spec fn position(&self) -> int {
        self.reader.position()
    }

    pub fn new(bytes: &'a [u8]) -> (d: Self)
        ensures
            d.data() == bytes@,
            d.position() == 0,
    {
        Decoder { reader: SectionReader::new(bytes) }
    }

    /// Whether any bytes are left (true while the decoder is not at its end).
    pub fn is_end(&self) -> (more: bool)
        ensures
            more <==> self.position() < self.data().len(),
    {
        self.reader.is_end()
    }

    pub fn decode_section_header(&mut self) -> (res: Result<(SectionID, u32), DecodeError>)
        ensures
            final(self).data() == old(self).data(),
            final(self).position() >= old(self).position(),
            spec_section_header(old(self).data(), old(self).position()) == match res {
                Ok(h) => Ok::<((SectionID, u32), int), DecodeError>((h, final(self).position())),
                Err(e) => Err(e),
            },
    {
        let b = self.reader.byte()?;
        let id = match SectionID::from_u8(b) {
            Some(id) => id,
            None => return Err(DecodeError::InvalidSectionId(b)),
        };
        let size = self.reader.u32()?;
        Ok((id, size))
    }

    /// The magic number and the version: `Ok` exactly when the first four
    /// bytes are "\0asm" and the next four the little-endian number 1.
    pub fn decode_header(&mut self) -> (res: Result<(String, u32), DecodeError>)
        requires
            old(self).position() == 0,
        ensures
            final(self).data() == old(self).data(),
            match res {
                Ok((magic, version)) => {
                    &&& magic@ == "\0asm"@
                    &&& version == 1
                    &&& final(self).position() == 8
                    &&& spec_bytes(old(self).data(), 0, 4) == Ok::<(Seq<u8>, int), DecodeError>((magic_bytes(), 4))
                    &&& spec_bytes(old(self).data(), 4, 4) matches Ok((v, q)) && q == 8 && le_value(v) == 1
                },
                Err(e) => match spec_bytes(old(self).data(), 0, 4) {
                    Ok((m, p)) => if m != magic_bytes() {
                        e == DecodeError::InvalidMagic
                    } else {
                        match spec_bytes(old(self).data(), p, 4) {
                            Ok((v, _)) => le_value(v) != 1 && e == DecodeError::InvalidVersion,
                            Err(e2) => e == e2,
                        }
                    },
                    Err(e2) => e == e2,
                },
            },
    {
        let magic = self.reader.bytes(4)?;
        if !(magic[0] == 0x00 && magic[1] == 0x61 && magic[2] == 0x73 && magic[3] == 0x6d) {
            return Err(DecodeError::InvalidMagic);
        }
        proof {
            assert(magic@ =~= magic_bytes());
        }
        let version = self.reader.bytes(4)?;
        let v = read_le(version.as_slice(), 0, 4);
        proof {
            assert(version@.subrange(0, 4) =~= version@);
        }
        if v != 1 {
            return Err(DecodeError::InvalidVersion);
        }
        let magic = "\0asm".to_owned();
        Ok((magic, 1))
    }

    /// Decodes a whole module: the header, then every section to the end of
    /// the input.
    pub fn decode(&mut self) -> (res: Result<Module, DecodeError>)
        requires
            old(self).position() == 0,
        ensures
            match res {
                Ok(m) => spec_module(old(self).data()) == Ok::<ModuleV, DecodeError>(m@),
                Err(e) => spec_module(old(self).data()) == Err::<ModuleV, DecodeError>(e),
            },
    {
        let ghost s = self.data();
        let (magic, version) = self.decode_header()?;
        let mut module = Module::new(magic, version);
        let _ = self.reader.remaining();
        while self.is_end()
            invariant
                self.data() == s,
                s == old(self).data(),
                8 <= self.position() <= s.len(),
                spec_module(s) == spec_sections_from(s, self.position(), module@),
            decreases s.len() - self.position(),
        {
            let ghost p = self.position();
            let (id, size) = self.decode_section_header()?;
            let bytes = self.reader.bytes(size as usize)?;
            let section = decode(id, bytes.as_slice())?;
            let _ = self.reader.remaining();
            module.add_section(section);
        }
        Ok(module)
    }
}

} // verus!
