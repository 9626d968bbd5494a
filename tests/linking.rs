use shade_params::{
    BufferHandle, EmptyLink, NamedCell, NoParams, ParamDictionary, ParamStorage, Parameter,
    ParameterError, ProgramInfo, SamplerHandle, ShaderParam, ShaderVar, TextureHandle,
    TextureParam, UniformValue,
};

fn var(name: &str) -> ShaderVar {
    ShaderVar { name: name.to_string() }
}

fn program(uniforms: &[&str], blocks: &[&str], textures: &[&str]) -> ProgramInfo {
    ProgramInfo {
        uniforms: uniforms.iter().map(|n| var(n)).collect(),
        blocks: blocks.iter().map(|n| var(n)).collect(),
        textures: textures.iter().map(|n| var(n)).collect(),
    }
}

fn cell<T>(name: &str, value: T) -> NamedCell<T> {
    NamedCell { name: name.to_string(), value }
}

fn red() -> UniformValue {
    UniformValue::F32Vector4([1.0f32.to_bits(), 0.0f32.to_bits(), 0.0f32.to_bits(), 1.0f32.to_bits()])
}

fn tex(id: u64, sampler: Option<u64>) -> TextureParam {
    TextureParam { texture: TextureHandle { id }, sampler: sampler.map(|id| SamplerHandle { id }) }
}

fn sample_dictionary() -> ParamDictionary {
    ParamDictionary {
        uniforms: vec![
            cell("color", red()),
            cell("count", UniformValue::I32(3)),
            cell("offset", UniformValue::I32Vector2([4, -5])),
        ],
        blocks: vec![cell("lights", BufferHandle { id: 10 }), cell("bones", BufferHandle { id: 11 })],
        textures: vec![cell("diffuse", tex(20, Some(21))), cell("shadow", tex(22, None))],
    }
}

#[test]
fn color_scenario() {
    let d = ParamDictionary {
        uniforms: vec![cell("color", red())],
        blocks: vec![],
        textures: vec![],
    };
    let info = program(&["color"], &[], &[]);
    let link = ParamDictionary::create_link(Some(&d), &info).unwrap();
    assert_eq!(link.uniforms(), &[0]);
    assert_eq!(link.blocks(), &[] as &[usize]);
    assert_eq!(link.textures(), &[] as &[usize]);
    let mut storage = ParamStorage::for_program(&info);
    d.fill_params(&link, &mut storage);
    assert_eq!(storage.uniforms, vec![Some(red())]);
    assert!(storage.blocks.is_empty());
    assert!(storage.textures.is_empty());
}

#[test]
fn no_params_links_empty_program() {
    let info = program(&[], &[], &[]);
    assert_eq!(NoParams::create_link(None, &info), Ok(EmptyLink));
    assert_eq!(NoParams::create_link(Some(&NoParams), &info), Ok(EmptyLink));
    let mut storage = ParamStorage {
        uniforms: vec![None, Some(UniformValue::I32(1))],
        blocks: vec![None],
        textures: vec![],
    };
    let before = storage.clone();
    NoParams.fill_params(&EmptyLink, &mut storage);
    assert_eq!(storage, before);
}

#[test]
fn no_params_reports_first_uniform() {
    let info = program(&["a", "b"], &["c"], &["d"]);
    assert_eq!(
        NoParams::create_link(None, &info),
        Err(ParameterError::MissingUniform("a".to_string()))
    );
}

#[test]
fn no_params_reports_first_block() {
    let info = program(&[], &["c", "e"], &["d"]);
    assert_eq!(
        NoParams::create_link(Some(&NoParams), &info),
        Err(ParameterError::MissingBlock("c".to_string()))
    );
}

#[test]
fn no_params_reports_first_texture() {
    let info = program(&[], &[], &["d", "f"]);
    assert_eq!(
        NoParams::create_link(None, &info),
        Err(ParameterError::MissingTexture("d".to_string()))
    );
}

#[test]
fn dictionary_without_instance_is_missing_self() {
    let info = program(&[], &[], &[]);
    assert_eq!(
        ParamDictionary::create_link(None, &info).err(),
        Some(ParameterError::MissingSelf)
    );
    let info = program(&["color"], &[], &[]);
    assert_eq!(
        ParamDictionary::create_link(None, &info).err(),
        Some(ParameterError::MissingSelf)
    );
}

#[test]
fn dictionary_links_by_name_in_program_order() {
    let d = sample_dictionary();
    let info = program(&["offset", "color"], &["bones"], &["shadow", "diffuse"]);
    let link = ParamDictionary::create_link(Some(&d), &info).unwrap();
    assert_eq!(link.uniforms(), &[2, 0]);
    assert_eq!(link.blocks(), &[1]);
    assert_eq!(link.textures(), &[1, 0]);
}

#[test]
fn dictionary_link_is_deterministic() {
    let d = sample_dictionary();
    let info = program(&["count", "color"], &["lights", "bones"], &["diffuse"]);
    let a = ParamDictionary::create_link(Some(&d), &info).unwrap();
    let b = ParamDictionary::create_link(Some(&d), &info).unwrap();
    assert_eq!(a.uniforms(), b.uniforms());
    assert_eq!(a.blocks(), b.blocks());
    assert_eq!(a.textures(), b.textures());
}

#[test]
fn duplicate_name_resolves_to_first_cell() {
    let d = ParamDictionary {
        uniforms: vec![
            cell("x", UniformValue::I32(1)),
            cell("y", UniformValue::I32(2)),
            cell("y", UniformValue::I32(3)),
        ],
        blocks: vec![],
        textures: vec![],
    };
    let info = program(&["y"], &[], &[]);
    let link = ParamDictionary::create_link(Some(&d), &info).unwrap();
    assert_eq!(link.uniforms(), &[1]);
    let mut storage = ParamStorage::for_program(&info);
    d.fill_params(&link, &mut storage);
    assert_eq!(storage.uniforms, vec![Some(UniformValue::I32(2))]);
}

#[test]
fn fill_writes_declared_slots_only() {
    let d = sample_dictionary();
    let info = program(&["count", "color"], &["lights"], &["shadow"]);
    let link = ParamDictionary::create_link(Some(&d), &info).unwrap();
    let old = Some(UniformValue::I32(-1));
    let mut storage = ParamStorage {
        uniforms: vec![None, None, old],
        blocks: vec![None, Some(BufferHandle { id: 99 })],
        textures: vec![None],
    };
    d.fill_params(&link, &mut storage);
    assert_eq!(storage.uniforms, vec![Some(UniformValue::I32(3)), Some(red()), old]);
    assert_eq!(storage.blocks, vec![Some(BufferHandle { id: 10 }), Some(BufferHandle { id: 99 })]);
    assert_eq!(storage.textures, vec![Some(tex(22, None))]);
}

#[test]
fn fill_twice_is_idempotent() {
    let d = sample_dictionary();
    let info = program(&["offset"], &["bones", "lights"], &["diffuse"]);
    let link = ParamDictionary::create_link(Some(&d), &info).unwrap();
    let mut storage = ParamStorage::for_program(&info);
    d.fill_params(&link, &mut storage);
    let first = storage.clone();
    d.fill_params(&link, &mut storage);
    assert_eq!(storage, first);
}

#[test]
fn refill_after_change_updates_only_that_slot() {
    let mut d = sample_dictionary();
    let info = program(&["color", "count"], &["lights"], &["diffuse"]);
    let link = ParamDictionary::create_link(Some(&d), &info).unwrap();
    let mut storage = ParamStorage::for_program(&info);
    d.fill_params(&link, &mut storage);
    let first = storage.clone();

    d.set_uniform(1, UniformValue::I32(42));
    let relinked = ParamDictionary::create_link(Some(&d), &info).unwrap();
    assert_eq!(relinked.uniforms(), link.uniforms());
    d.fill_params(&link, &mut storage);
    assert_eq!(storage.uniforms[0], first.uniforms[0]);
    assert_eq!(storage.uniforms[1], Some(UniformValue::I32(42)));
    assert_eq!(storage.blocks, first.blocks);
    assert_eq!(storage.textures, first.textures);
}

#[test]
fn refill_after_block_and_texture_change() {
    let mut d = sample_dictionary();
    let info = program(&["color"], &["lights", "bones"], &["diffuse", "shadow"]);
    let link = ParamDictionary::create_link(Some(&d), &info).unwrap();
    let mut storage = ParamStorage::for_program(&info);
    d.fill_params(&link, &mut storage);
    let first = storage.clone();

    d.set_block(1, BufferHandle { id: 77 });
    d.set_texture(0, tex(88, None));
    d.fill_params(&link, &mut storage);
    assert_eq!(storage.uniforms, first.uniforms);
    assert_eq!(storage.blocks, vec![first.blocks[0], Some(BufferHandle { id: 77 })]);
    assert_eq!(storage.textures, vec![Some(tex(88, None)), first.textures[1]]);
}

#[test]
fn missing_uniform_fails() {
    let d = sample_dictionary();
    let info = program(&["color", "tint", "glow"], &["nothing"], &[]);
    assert_eq!(
        ParamDictionary::create_link(Some(&d), &info).err(),
        Some(ParameterError::MissingUniform("tint".to_string()))
    );
}

#[test]
fn missing_block_fails() {
    let d = sample_dictionary();
    let info = program(&["color"], &["lights", "camera"], &["nothing"]);
    assert_eq!(
        ParamDictionary::create_link(Some(&d), &info).err(),
        Some(ParameterError::MissingBlock("camera".to_string()))
    );
}

#[test]
fn missing_texture_fails() {
    let d = sample_dictionary();
    let info = program(&[], &["lights"], &["normal"]);
    assert_eq!(
        ParamDictionary::create_link(Some(&d), &info).err(),
        Some(ParameterError::MissingTexture("normal".to_string()))
    );
}

#[test]
fn empty_dictionary_links_empty_program() {
    let d = ParamDictionary { uniforms: vec![], blocks: vec![], textures: vec![] };
    let info = program(&[], &[], &[]);
    let link = ParamDictionary::create_link(Some(&d), &info).unwrap();
    assert!(link.uniforms().is_empty());
    let mut storage = ParamStorage::for_program(&info);
    d.fill_params(&link, &mut storage);
    assert_eq!(storage, ParamStorage { uniforms: vec![], blocks: vec![], textures: vec![] });
}

#[test]
fn storage_for_program_is_sized_and_empty() {
    let info = program(&["a", "b"], &["c"], &["d", "e", "f"]);
    let storage = ParamStorage::for_program(&info);
    assert_eq!(storage.uniforms, vec![None, None]);
    assert_eq!(storage.blocks, vec![None]);
    assert_eq!(storage.textures, vec![None, None, None]);
}

#[test]
fn put_writes_one_slot_of_its_category() {
    let mut storage = ParamStorage {
        uniforms: vec![None, None],
        blocks: vec![None, None],
        textures: vec![None, None],
    };
    UniformValue::F32(2.5f32.to_bits()).put(1, &mut storage);
    BufferHandle { id: 5 }.put(0, &mut storage);
    tex(6, Some(7)).put(1, &mut storage);
    assert_eq!(storage.uniforms, vec![None, Some(UniformValue::F32(2.5f32.to_bits()))]);
    assert_eq!(storage.blocks, vec![Some(BufferHandle { id: 5 }), None]);
    assert_eq!(storage.textures, vec![None, Some(tex(6, Some(7)))]);
    match storage.uniforms[1] {
        Some(UniformValue::F32(bits)) => assert_eq!(f32::from_bits(bits), 2.5),
        _ => panic!("uniform slot not written"),
    }
}

#[test]
fn checks_accept_only_their_category() {
    let v = var("anything");
    assert!(<UniformValue as Parameter>::check_uniform(&v));
    assert!(!<UniformValue as Parameter>::check_block(&v));
    assert!(!<UniformValue as Parameter>::check_texture(&v));
    assert!(!<BufferHandle as Parameter>::check_uniform(&v));
    assert!(<BufferHandle as Parameter>::check_block(&v));
    assert!(!<BufferHandle as Parameter>::check_texture(&v));
    assert!(!<TextureParam as Parameter>::check_uniform(&v));
    assert!(!<TextureParam as Parameter>::check_block(&v));
    assert!(<TextureParam as Parameter>::check_texture(&v));
}

#[test]
fn matrix_values_are_stored_whole() {
    let m = UniformValue::F32Matrix2([[1.0f32.to_bits(), 2.0f32.to_bits()], [3.0f32.to_bits(), 4.0f32.to_bits()]]);
    let d = ParamDictionary {
        uniforms: vec![cell("m", m), cell("v", UniformValue::I32Vector4([1, 2, 3, 4]))],
        blocks: vec![],
        textures: vec![],
    };
    let info = program(&["v", "m"], &[], &[]);
    let link = ParamDictionary::create_link(Some(&d), &info).unwrap();
    let mut storage = ParamStorage::for_program(&info);
    d.fill_params(&link, &mut storage);
    assert_eq!(storage.uniforms, vec![Some(UniformValue::I32Vector4([1, 2, 3, 4])), Some(m)]);
}
