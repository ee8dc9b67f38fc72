use std::cell::Cell;

use revenant::asset::AssetManager;
use revenant::context::GpuContext;
use revenant::program::{Program, UniformStep};
use revenant::shader::{Shader, ShaderStage};
use revenant::table::NameTable;
use revenant::texture::{Filtering, ImageFormat, ImageKind, Texture, TextureSize, Wrapping};

fn texture(id: u32) -> Texture {
    Texture {
        id,
        kind: ImageKind::Diffuse,
        format: ImageFormat::RGB,
        size: TextureSize::TwoD { width: 8, height: 8 },
        s_wrapping: Wrapping::Repeat,
        t_wrapping: Wrapping::Repeat,
        min_filtering: Filtering::Linear,
        mag_filtering: Filtering::Linear,
        mipmapping: true,
    }
}

fn program(id: u32) -> Program {
    let vertex = Shader { stage: ShaderStage::Vertex, id: 1 };
    let fragment = Shader { stage: ShaderStage::Fragment, id: 2 };
    Program::link(id, vertex, fragment, 1, String::new()).0.unwrap()
}

#[test]
fn texture_is_loaded_once_per_key() {
    let calls = Cell::new(0u32);
    let mut manager = AssetManager::new();
    let first = manager
        .get_or_load_texture("a.png", || {
            calls.set(calls.get() + 1);
            texture(10)
        })
        .id;
    let second = manager
        .get_or_load_texture("a.png", || {
            calls.set(calls.get() + 1);
            texture(11)
        })
        .id;
    assert_eq!(first, 10);
    assert_eq!(second, 10);
    assert_eq!(calls.get(), 1);
}

#[test]
fn second_request_returns_the_whole_cached_texture() {
    let mut manager = AssetManager::new();
    manager.get_or_load_texture("a.png", || texture(10));
    let again = manager.get_or_load_texture("a.png", || unreachable!());
    assert_eq!(again, &texture(10));
}

#[test]
fn different_keys_load_different_textures() {
    let calls = Cell::new(0u32);
    let mut manager = AssetManager::new();
    for (key, id) in [("a.png", 1u32), ("b.png", 2), ("a.PNG", 3), ("", 4)] {
        let loaded = manager
            .get_or_load_texture(key, || {
                calls.set(calls.get() + 1);
                texture(id)
            })
            .id;
        assert_eq!(loaded, id);
    }
    assert_eq!(calls.get(), 4);
    for (key, id) in [("a.png", 1u32), ("b.png", 2), ("a.PNG", 3), ("", 4)] {
        let cached = manager.get_or_load_texture(key, || unreachable!()).id;
        assert_eq!(cached, id);
    }
}

#[test]
fn textures_and_programs_do_not_share_keys() {
    let mut manager = AssetManager::new();
    manager.get_or_load_texture("crate", || texture(5));
    let loaded = manager.get_or_load_program("crate", || program(6)).id();
    assert_eq!(loaded, 6);
    assert_eq!(manager.get_or_load_texture("crate", || unreachable!()).id, 5);
}

#[test]
fn program_is_loaded_once_and_keeps_what_it_learns() {
    let calls = Cell::new(0u32);
    let mut manager = AssetManager::new();
    let mut ctx = GpuContext::new();
    {
        let shared = manager.get_or_load_program("lit", || {
            calls.set(calls.get() + 1);
            program(30)
        });
        shared.activate(&mut ctx);
        assert_eq!(shared.set_uniform(&ctx, "view"), UniformStep::Query);
        shared.located_uniform(&ctx, "view", 3);
    }
    let again = manager.get_or_load_program("lit", || {
        calls.set(calls.get() + 1);
        program(31)
    });
    assert_eq!(again.id(), 30);
    assert_eq!(again.set_uniform(&ctx, "view"), UniformStep::Upload { location: 3 });
    assert_eq!(calls.get(), 1);
}

#[test]
fn table_starts_empty() {
    let table: NameTable<u32> = NameTable::new();
    assert!(!table.contains("a"));
    assert_eq!(table.get("a"), None);
    assert_eq!(table.get(""), None);
}

#[test]
fn table_insert_and_replace() {
    let mut table = NameTable::new();
    table.insert("a", 1u32);
    table.insert("b", 2);
    assert_eq!(table.get("a"), Some(&1));
    assert_eq!(table.get("b"), Some(&2));
    assert_eq!(table.get("c"), None);
    table.insert("a", 3);
    assert_eq!(table.get("a"), Some(&3));
    assert_eq!(table.get("b"), Some(&2));
    assert!(table.contains("a"));
    assert!(!table.contains("A"));
}

#[test]
fn table_get_or_insert_with_calls_make_on_a_miss_only() {
    let calls = Cell::new(0u32);
    let mut table = NameTable::new();
    {
        let value = table.get_or_insert_with("x", || {
            calls.set(calls.get() + 1);
            10u32
        });
        assert_eq!(*value, 10);
        *value = 20;
    }
    {
        let value = table.get_or_insert_with("x", || {
            calls.set(calls.get() + 1);
            30u32
        });
        assert_eq!(*value, 20);
    }
    assert_eq!(calls.get(), 1);
    assert_eq!(table.get("x"), Some(&20));
}
