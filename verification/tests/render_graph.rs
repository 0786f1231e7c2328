use kajiya::render_graph::{
    AccessType, Buffer, BufferDesc, Device, Handle, Image, ImageDesc, ReadOnlyHandle, RenderGraph,
};

#[test]
fn the_device_assigns_fresh_resource_identities() {
    let mut device = Device::new();
    let a = device.create_image(ImageDesc { width: 8, height: 8, format: 1 });
    let b = device.create_buffer(BufferDesc { size: 256 });
    assert_eq!(a.id, 0);
    assert_eq!(b.id, 1);
    assert_eq!(device.next_resource_id, 2);
}

#[test]
fn imports_exports_and_retirement_line_up() {
    let mut rg = RenderGraph::new();
    let img = Image { id: 3, desc: ImageDesc { width: 4, height: 4, format: 2 } };
    let buf = Buffer { id: 4, desc: BufferDesc { size: 64 } };
    let hi: Handle<Image> = rg.import_image(img, AccessType::ShaderRead);
    let hb: Handle<Buffer> = rg.import_buffer(buf, AccessType::Nothing);
    let ei = rg.export_image(hi, AccessType::Nothing);
    let eb = rg.export_buffer(hb, AccessType::Nothing);
    let retired = rg.into_retired(vec![AccessType::ShaderWrite], vec![AccessType::TransferRead]);
    let (img_back, img_access) = retired.exported_image(ei);
    assert_eq!(img_back.id, 3);
    assert_eq!(img_access, AccessType::ShaderWrite);
    let (buf_back, buf_access) = retired.exported_buffer(eb);
    assert_eq!(buf_back.id, 4);
    assert_eq!(buf_access, AccessType::TransferRead);
}

#[test]
fn a_read_only_handle_wraps_its_handle() {
    let mut rg = RenderGraph::new();
    let img = Image { id: 9, desc: ImageDesc { width: 1, height: 1, format: 0 } };
    let h = rg.import_image(img, AccessType::Nothing);
    let ro = ReadOnlyHandle::from(h);
    assert_eq!(ro.0.raw, h.raw);
}
