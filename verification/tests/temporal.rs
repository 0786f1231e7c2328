use std::marker::PhantomData;

use kajiya::render_graph::{AccessType, Buffer, BufferDesc, Device, Handle, Image, ImageDesc};
use kajiya::temporal::{
    ExportedTemporalRenderGraphState, GetOrCreateTemporal, TemporalError, TemporalRenderGraph,
    TemporalRenderGraphState, TemporalResourceKey, TemporalResourceState,
};

fn img_desc_a() -> ImageDesc {
    ImageDesc { width: 1920, height: 1080, format: 37 }
}

fn img_desc_b() -> ImageDesc {
    ImageDesc { width: 64, height: 64, format: 1 }
}

#[test]
fn creating_then_reclaiming_the_same_key_errors() {
    let mut trg = TemporalRenderGraph::new(TemporalRenderGraphState::default(), Device::new());
    let first = trg.get_or_create_temporal(TemporalResourceKey::new("history"), img_desc_a());
    assert!(first.is_ok());
    assert_eq!(trg.device().next_resource_id, 1);

    let second = trg.get_or_create_temporal(TemporalResourceKey::new("history"), img_desc_a());
    match second {
        Err(TemporalError::AlreadyClaimed { key }) => assert_eq!(key.0, "history"),
        Ok(_) => panic!("the second claim in one frame must fail"),
    }
    // no second backing resource was created
    assert_eq!(trg.device().next_resource_id, 1);
    assert_eq!(trg.temporal_state.images.len(), 1);
}

#[test]
fn distinct_keys_create_distinct_resources() {
    let mut trg = TemporalRenderGraph::new(TemporalRenderGraphState::default(), Device::new());
    let h1 = trg
        .get_or_create_temporal(TemporalResourceKey::from(String::from("history")), img_desc_a())
        .unwrap();
    let h2 = trg.get_or_create_temporal(TemporalResourceKey::new("depth"), img_desc_b()).unwrap();
    assert_ne!(h1.raw, h2.raw);
    assert_eq!(trg.device().next_resource_id, 2);
    let buf = trg
        .get_or_create_temporal(TemporalResourceKey::new("exposure"), BufferDesc { size: 16 })
        .unwrap();
    assert_eq!(buf.raw, 0);
    assert_eq!(trg.device().next_resource_id, 3);
}

#[test]
fn export_then_retire_returns_claimed_keys_to_inert() {
    let mut trg = TemporalRenderGraph::new(TemporalRenderGraphState::default(), Device::new());
    let _h: Handle<Image> =
        trg.get_or_create_temporal(TemporalResourceKey::new("history"), img_desc_a()).unwrap();
    let device = Device { next_resource_id: trg.device().next_resource_id };

    let (rg, exported) = trg.export_temporal();
    let n_image_exports = rg.exported_images.len();
    assert_eq!(n_image_exports, 1);

    // the graph executes; its retirement reports the final access types
    let retired = rg.into_retired(vec![AccessType::ShaderWrite; 1], Vec::new());
    let state = exported.retire_temporal(&retired);
    assert_eq!(state.images.len(), 1);
    match &state.images[0].1 {
        TemporalResourceState::Inert { resource, access_type } => {
            assert_eq!(resource.desc, img_desc_a());
            assert_eq!(*access_type, AccessType::ShaderWrite);
        },
        _ => panic!("a retired key must rest"),
    }

    // the next frame re-imports the same backing image at the recorded access
    let mut next = TemporalRenderGraph::new(state, device);
    let _h2 = next.get_or_create_temporal(TemporalResourceKey::new("history"), img_desc_a())
        .unwrap();
    assert_eq!(next.device().next_resource_id, 1);
    assert_eq!(next.rg.imported_images[0].1, AccessType::ShaderWrite);
}

#[test]
fn untouched_inert_key_is_unaffected_by_export_and_retire() {
    let inert_key = TemporalResourceKey::new("untouched");
    let state = TemporalRenderGraphState {
        images: vec![(
            inert_key,
            TemporalResourceState::Inert {
                resource: Image { id: 40, desc: img_desc_b() },
                access_type: AccessType::ShaderRead,
            },
        )],
        buffers: Vec::new(),
    };
    let trg = TemporalRenderGraph::new(state, Device { next_resource_id: 41 });
    let (rg, exported) = trg.export_temporal();
    assert_eq!(rg.exported_images.len(), 0);
    let retired = rg.into_retired(Vec::new(), Vec::new());
    let state = exported.retire_temporal(&retired);
    match &state.images[0].1 {
        TemporalResourceState::Inert { resource, access_type } => {
            assert_eq!(resource.id, 40);
            assert_eq!(*access_type, AccessType::ShaderRead);
        },
        _ => panic!("an unclaimed key must stay at rest"),
    }
}

#[test]
fn empty_ledger_exports_and_retires_cleanly() {
    let state = TemporalRenderGraphState { images: Vec::new(), buffers: Vec::new() };
    let trg = TemporalRenderGraph::new(state, Device::new());
    let (rg, exported) = trg.export_temporal();
    let retired = rg.into_retired(Vec::new(), Vec::new());
    let state = exported.retire_temporal(&retired);
    assert!(state.images.is_empty());
    assert!(state.buffers.is_empty());
}

#[test]
fn reuse_from_downgrades_unrested_entries_and_keeps_inert_ones() {
    let old = TemporalRenderGraphState {
        images: vec![
            (
                TemporalResourceKey::new("rested"),
                TemporalResourceState::Inert {
                    resource: Image { id: 1, desc: img_desc_a() },
                    access_type: AccessType::ShaderRead,
                },
            ),
            (
                TemporalResourceKey::new("claimed"),
                TemporalResourceState::Imported {
                    resource: Image { id: 2, desc: img_desc_b() },
                    handle: Handle { raw: 0, marker: PhantomData },
                },
            ),
        ],
        buffers: vec![(
            TemporalResourceKey::new("exposure"),
            TemporalResourceState::Inert {
                resource: Buffer { id: 3, desc: BufferDesc { size: 8 } },
                access_type: AccessType::TransferRead,
            },
        )],
    };
    let mut fresh = TemporalRenderGraphState::default();
    fresh.reuse_from(old);
    assert_eq!(fresh.images.len(), 2);
    for (key, state) in &fresh.images {
        match state {
            TemporalResourceState::Inert { resource, access_type } => {
                if key.0 == "rested" {
                    assert_eq!(resource.id, 1);
                    assert_eq!(*access_type, AccessType::ShaderRead);
                } else {
                    assert_eq!(key.0, "claimed");
                    assert_eq!(resource.id, 2);
                    assert_eq!(*access_type, AccessType::Nothing);
                }
            },
            _ => panic!("every adopted entry must rest"),
        }
    }
    match &fresh.buffers[0].1 {
        TemporalResourceState::Inert { access_type, .. } => {
            assert_eq!(*access_type, AccessType::TransferRead);
        },
        _ => panic!("the buffer entry must rest"),
    }
}

#[test]
fn reuse_from_keeps_entries_already_present() {
    let mut target = TemporalRenderGraphState {
        images: vec![(
            TemporalResourceKey::new("history"),
            TemporalResourceState::Inert {
                resource: Image { id: 10, desc: img_desc_a() },
                access_type: AccessType::General,
            },
        )],
        buffers: Vec::new(),
    };
    let old = TemporalRenderGraphState {
        images: vec![(
            TemporalResourceKey::new("history"),
            TemporalResourceState::Inert {
                resource: Image { id: 99, desc: img_desc_b() },
                access_type: AccessType::TransferWrite,
            },
        )],
        buffers: Vec::new(),
    };
    target.reuse_from(old);
    assert_eq!(target.images.len(), 1);
    match &target.images[0].1 {
        TemporalResourceState::Inert { resource, access_type } => {
            assert_eq!(resource.id, 10);
            assert_eq!(*access_type, AccessType::General);
        },
        _ => panic!("the present entry must stay"),
    }
}

#[test]
fn clone_assuming_inert_copies_the_ledger() {
    let state = TemporalRenderGraphState {
        images: vec![(
            TemporalResourceKey::new("history"),
            TemporalResourceState::Inert {
                resource: Image { id: 5, desc: img_desc_a() },
                access_type: AccessType::ShaderWrite,
            },
        )],
        buffers: vec![(
            TemporalResourceKey::new("exposure"),
            TemporalResourceState::Inert {
                resource: Buffer { id: 6, desc: BufferDesc { size: 4 } },
                access_type: AccessType::Nothing,
            },
        )],
    };
    let copy = state.clone_assuming_inert();
    assert_eq!(copy.images.len(), 1);
    assert_eq!(copy.images[0].0 .0, "history");
    assert_eq!(copy.buffers.len(), 1);
    match &copy.buffers[0].1 {
        TemporalResourceState::Inert { resource, .. } => assert_eq!(resource.id, 6),
        _ => panic!("the copy must rest"),
    }
}

#[test]
fn exported_state_carries_the_whole_ledger() {
    let mut trg = TemporalRenderGraph::new(TemporalRenderGraphState::default(), Device::new());
    trg.get_or_create_temporal(TemporalResourceKey::new("a"), img_desc_a()).unwrap();
    trg.get_or_create_temporal(TemporalResourceKey::new("b"), BufferDesc { size: 32 }).unwrap();
    let (rg, exported) = trg.export_temporal();
    let ExportedTemporalRenderGraphState(inner) = &exported;
    assert_eq!(inner.images.len(), 1);
    assert_eq!(inner.buffers.len(), 1);
    assert_eq!(rg.exported_images.len(), 1);
    assert_eq!(rg.exported_buffers.len(), 1);
}

#[test]
fn reuse_from_an_empty_ledger_changes_nothing() {
    let mut target = TemporalRenderGraphState {
        images: vec![(
            TemporalResourceKey::new("history"),
            TemporalResourceState::Inert {
                resource: Image { id: 7, desc: img_desc_a() },
                access_type: AccessType::General,
            },
        )],
        buffers: Vec::new(),
    };
    target.reuse_from(TemporalRenderGraphState::default());
    assert_eq!(target.images.len(), 1);
    assert!(target.buffers.is_empty());
}
