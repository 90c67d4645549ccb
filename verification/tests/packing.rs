//! Byte packing of words, atlas metadata and the sprite record.

use sprite_atlas_draw::atlas::{RectRecord, Vec2Bits, atlas_size_bytes, rect_table_bytes};
use sprite_atlas_draw::bytes::{push_u32_le, u32s_to_le_bytes};
use sprite_atlas_draw::drawer::{ColorBits, TextureAtlasSprite, sprite_record_bytes};

fn le(words: &[u32]) -> Vec<u8> {
    let mut out = Vec::new();
    for w in words {
        out.extend_from_slice(&w.to_le_bytes());
    }
    out
}

#[test]
fn push_u32_le_writes_little_endian() {
    let mut out = Vec::new();
    push_u32_le(&mut out, 0x0403_0201);
    assert_eq!(out, vec![0x01, 0x02, 0x03, 0x04]);
    push_u32_le(&mut out, 7);
    assert_eq!(out, vec![0x01, 0x02, 0x03, 0x04, 7, 0, 0, 0]);
}

#[test]
fn words_to_bytes_concatenates() {
    let words = vec![1u32, 0xffff_ffff, 0];
    assert_eq!(u32s_to_le_bytes(&words), le(&[1, 0xffff_ffff, 0]));
    let empty: Vec<u32> = Vec::new();
    assert_eq!(u32s_to_le_bytes(&empty), Vec::<u8>::new());
}

#[test]
fn atlas_size_buffer_is_always_eight_bytes() {
    let size = Vec2Bits { x: 128.0f32.to_bits(), y: 64.0f32.to_bits() };
    let bytes = atlas_size_bytes(&size);
    assert_eq!(bytes.len(), 8);
    assert_eq!(bytes, le(&[128.0f32.to_bits(), 64.0f32.to_bits()]));
    let odd = Vec2Bits { x: 0, y: 3.5f32.to_bits() };
    assert_eq!(atlas_size_bytes(&odd).len(), 8);
}

fn rect(min_x: f32, min_y: f32, max_x: f32, max_y: f32) -> RectRecord {
    RectRecord {
        min: Vec2Bits { x: min_x.to_bits(), y: min_y.to_bits() },
        max: Vec2Bits { x: max_x.to_bits(), y: max_y.to_bits() },
    }
}

#[test]
fn rect_table_buffer_size_is_sixteen_per_frame() {
    let none: Vec<RectRecord> = Vec::new();
    assert_eq!(rect_table_bytes(&none).len(), 0);

    let one = vec![rect(0.0, 0.0, 32.0, 32.0)];
    let bytes = rect_table_bytes(&one);
    assert_eq!(bytes.len(), 16);
    assert_eq!(
        bytes,
        le(&[
            0.0f32.to_bits(),
            0.0f32.to_bits(),
            32.0f32.to_bits(),
            32.0f32.to_bits(),
        ])
    );

    let five = vec![
        rect(0.0, 0.0, 1.0, 1.0),
        rect(1.0, 0.0, 2.0, 1.0),
        rect(2.0, 0.0, 3.0, 1.0),
        rect(3.0, 0.0, 4.0, 1.0),
        rect(4.0, 0.0, 5.0, 1.0),
    ];
    assert_eq!(rect_table_bytes(&five).len(), 80);
}

#[test]
fn rect_table_packs_frames_in_order() {
    let frames = vec![rect(0.0, 0.0, 1.0, 1.0), rect(1.0, 0.0, 2.0, 1.0)];
    let bytes = rect_table_bytes(&frames);
    assert_eq!(bytes.len(), 32);
    assert_eq!(
        &bytes[16..32],
        le(&[
            1.0f32.to_bits(),
            0.0f32.to_bits(),
            2.0f32.to_bits(),
            1.0f32.to_bits(),
        ])
        .as_slice()
    );
}

#[test]
fn sprite_record_packs_index_then_tint() {
    let sprite = TextureAtlasSprite {
        index: 3,
        color: ColorBits {
            r: 1.0f32.to_bits(),
            g: 0.5f32.to_bits(),
            b: 0.25f32.to_bits(),
            a: 1.0f32.to_bits(),
        },
    };
    let bytes = sprite_record_bytes(&sprite);
    assert_eq!(bytes.len(), 20);
    assert_eq!(
        bytes,
        le(&[
            3,
            1.0f32.to_bits(),
            0.5f32.to_bits(),
            0.25f32.to_bits(),
            1.0f32.to_bits(),
        ])
    );
}
