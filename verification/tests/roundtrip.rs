//! Round trips through `wasmparser`: the encoded sections are framed into
//! a module, then validated or decoded back and compared with the values
//! that were encoded.

use wasm_encoder::CompositeType;
use wasm_encoder::FieldType;
use wasm_encoder::FuncType;
use wasm_encoder::RefType;
use wasm_encoder::StorageType;
use wasm_encoder::SubType;
use wasm_encoder::TagKind;
use wasm_encoder::TagSection;
use wasm_encoder::TagType;
use wasm_encoder::TypeSection;
use wasm_encoder::ValType;
use wasm_encoder::push_unsigned_leb128;

const TYPE_SECTION_ID: u8 = 1;
const TAG_SECTION_ID: u8 = 13;

/// Frame a section: its identifier byte, the payload size, the
/// declaration count, then the raw contents.
fn append_section(out: &mut Vec<u8>, id: u8, count: u32, contents: &[u8]) {
    let mut payload = Vec::new();
    push_unsigned_leb128(&mut payload, count);
    payload.extend_from_slice(contents);
    out.push(id);
    push_unsigned_leb128(out, payload.len() as u32);
    out.extend_from_slice(&payload);
}

/// A module holding just the given type section.
fn module_with_types(types: &TypeSection) -> Vec<u8> {
    let mut out = vec![0x00, 0x61, 0x73, 0x6D, 0x01, 0x00, 0x00, 0x00];
    append_section(&mut out, TYPE_SECTION_ID, types.len(), types.bytes().as_slice());
    out
}

#[test]
fn func_types_dont_require_wasm_gc() {
    let mut types = TypeSection::new();
    types.subtype(&SubType {
        is_final: true,
        supertype_idx: None,
        composite_type: CompositeType::Func(FuncType::new(&[], &[])),
    });

    let wasm_bytes = module_with_types(&types);

    let mut validator = wasmparser::Validator::new_with_features(
        wasmparser::WasmFeatures::default() & !wasmparser::WasmFeatures::GC,
    );

    validator.validate_all(&wasm_bytes).expect(
        "Encoding pre Wasm GC type should not accidentally use Wasm GC specific encoding",
    );
}

/// The sub types decoded back from a module's type section, one vector of
/// members per declaration.
fn decode_type_section(wasm_bytes: &[u8]) -> Vec<Vec<wasmparser::SubType>> {
    let mut decoded = Vec::new();
    for payload in wasmparser::Parser::new(0).parse_all(wasm_bytes) {
        if let wasmparser::Payload::TypeSection(reader) = payload.expect("parse error") {
            for group in reader {
                let group = group.expect("malformed type section");
                decoded.push(group.into_types().collect());
            }
        }
    }
    decoded
}

#[test]
fn struct_and_func_section_round_trips() {
    let mut types = TypeSection::new();
    types.struct_(&[
        FieldType { element_type: StorageType::I8, mutable: false },
        FieldType { element_type: StorageType::Val(ValType::I32), mutable: true },
    ]);
    types.function(&[ValType::I32, ValType::I32], &[ValType::I64]);
    assert_eq!(types.len(), 2);

    let wasm_bytes = module_with_types(&types);

    let mut validator = wasmparser::Validator::new_with_features(
        wasmparser::WasmFeatures::default(),
    );
    validator.validate_all(&wasm_bytes).expect("the encoded module should validate");

    let decoded = decode_type_section(&wasm_bytes);
    assert_eq!(decoded.len(), 2);
    assert_eq!(decoded[0].len(), 1);
    assert_eq!(decoded[1].len(), 1);

    let first = &decoded[0][0];
    assert!(first.is_final);
    assert!(first.supertype_idxs.is_empty());
    assert!(!first.composite_type.shared);
    match &first.composite_type.inner {
        wasmparser::CompositeInnerType::Struct(st) => {
            assert_eq!(st.fields.len(), 2);
            assert_eq!(st.fields[0].element_type, wasmparser::StorageType::I8);
            assert!(!st.fields[0].mutable);
            assert_eq!(
                st.fields[1].element_type,
                wasmparser::StorageType::Val(wasmparser::ValType::I32)
            );
            assert!(st.fields[1].mutable);
        }
        other => panic!("expected a struct type, found {other:?}"),
    }

    let second = &decoded[1][0];
    assert!(second.is_final);
    assert!(second.supertype_idxs.is_empty());
    match &second.composite_type.inner {
        wasmparser::CompositeInnerType::Func(f) => {
            assert_eq!(f.params(), [wasmparser::ValType::I32, wasmparser::ValType::I32]);
            assert_eq!(f.results(), [wasmparser::ValType::I64]);
        }
        other => panic!("expected a function type, found {other:?}"),
    }
}

#[test]
fn val_types_round_trip() {
    let cases = [
        (ValType::I32, wasmparser::ValType::I32),
        (ValType::I64, wasmparser::ValType::I64),
        (ValType::F32, wasmparser::ValType::F32),
        (ValType::F64, wasmparser::ValType::F64),
        (ValType::V128, wasmparser::ValType::V128),
        (ValType::Ref(RefType::funcref()), wasmparser::ValType::FUNCREF),
        (ValType::Ref(RefType::externref()), wasmparser::ValType::EXTERNREF),
    ];
    for (ty, expected) in cases {
        let mut types = TypeSection::new();
        types.function(&[ty], &[]);
        let decoded = decode_type_section(&module_with_types(&types));
        assert_eq!(decoded.len(), 1);
        match &decoded[0][0].composite_type.inner {
            wasmparser::CompositeInnerType::Func(f) => {
                assert_eq!(f.params(), [expected], "for {ty:?}");
                assert!(f.results().is_empty());
            }
            other => panic!("expected a function type, found {other:?}"),
        }
    }
}

#[test]
fn non_nullable_concrete_ref_round_trips() {
    let mut types = TypeSection::new();
    types.function(&[], &[]);
    types.function(&[ValType::Ref(RefType { nullable: false, heap_type: wasm_encoder::HeapType::Concrete(0) })], &[]);

    let decoded = decode_type_section(&module_with_types(&types));
    assert_eq!(decoded.len(), 2);
    match &decoded[1][0].composite_type.inner {
        wasmparser::CompositeInnerType::Func(f) => match f.params() {
            [wasmparser::ValType::Ref(r)] => {
                assert!(!r.is_nullable());
                match r.heap_type() {
                    wasmparser::HeapType::Concrete(idx) => {
                        assert_eq!(idx.as_module_index(), Some(0));
                    }
                    other => panic!("expected a concrete heap type, found {other:?}"),
                }
            }
            other => panic!("expected one reference parameter, found {other:?}"),
        },
        other => panic!("expected a function type, found {other:?}"),
    }
}

#[test]
fn rec_group_round_trips() {
    let mut types = TypeSection::new();
    types.rec(&[
        SubType {
            is_final: false,
            supertype_idx: None,
            composite_type: CompositeType::Func(FuncType::new(&[], &[])),
        },
        SubType {
            is_final: true,
            supertype_idx: Some(0),
            composite_type: CompositeType::Func(FuncType::new(&[], &[])),
        },
    ]);
    assert_eq!(types.len(), 1);

    let wasm_bytes = module_with_types(&types);
    let mut validator = wasmparser::Validator::new_with_features(
        wasmparser::WasmFeatures::default(),
    );
    validator.validate_all(&wasm_bytes).expect("the encoded module should validate");

    let decoded = decode_type_section(&wasm_bytes);
    assert_eq!(decoded.len(), 1, "one declaration for the whole group");
    let group = &decoded[0];
    assert_eq!(group.len(), 2, "both members decoded");
    assert!(!group[0].is_final);
    assert!(group[0].supertype_idxs.is_empty());
    assert!(group[1].is_final);
    assert_eq!(group[1].supertype_idxs.len(), 1);
    assert_eq!(group[1].supertype_idxs[0].as_module_index(), Some(0));
}

#[test]
fn tag_section_round_trips() {
    let mut tags = TagSection::new();
    tags.tag(TagType { kind: TagKind::Exception, func_type_idx: 2 });
    tags.tag(TagType { kind: TagKind::Exception, func_type_idx: 300 });

    let mut wasm_bytes = vec![0x00, 0x61, 0x73, 0x6D, 0x01, 0x00, 0x00, 0x00];
    append_section(&mut wasm_bytes, TAG_SECTION_ID, tags.len(), tags.bytes().as_slice());

    let mut decoded = Vec::new();
    for payload in wasmparser::Parser::new(0).parse_all(&wasm_bytes) {
        if let wasmparser::Payload::TagSection(reader) = payload.expect("parse error") {
            for tag in reader {
                decoded.push(tag.expect("malformed tag section"));
            }
        }
    }
    assert_eq!(decoded.len(), 2);
    assert_eq!(decoded[0].kind, wasmparser::TagKind::Exception);
    assert_eq!(decoded[0].func_type_idx, 2);
    assert_eq!(decoded[1].kind, wasmparser::TagKind::Exception);
    assert_eq!(decoded[1].func_type_idx, 300);
}
