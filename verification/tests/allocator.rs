use indexmap::IndexMap;
use indexmap::IndexSet;
use jay_compositor::backends::metal::allocator::prime_methods::prime_methods;
use jay_compositor::backends::metal::allocator::BoAllocationSettings;
use jay_compositor::backends::metal::allocator::BufferCreation;
use jay_compositor::backends::metal::allocator::Builder;
use jay_compositor::backends::metal::allocator::ClearTarget;
use jay_compositor::backends::metal::allocator::CopyDeviceFormat;
use jay_compositor::backends::metal::allocator::CopyDeviceSupport;
use jay_compositor::backends::metal::allocator::CopyOp;
use jay_compositor::backends::metal::allocator::CopyToDev;
use jay_compositor::backends::metal::allocator::CopyToDevStep;
use jay_compositor::backends::metal::allocator::CopyToNew;
use jay_compositor::backends::metal::allocator::CopyToNewOp;
use jay_compositor::backends::metal::allocator::CopyToNewPlan;
use jay_compositor::backends::metal::allocator::CopyToNewStep;
use jay_compositor::backends::metal::allocator::CreateOp;
use jay_compositor::backends::metal::allocator::FbSel;
use jay_compositor::backends::metal::allocator::GfxFormat;
use jay_compositor::backends::metal::allocator::GfxWriteModifier;
use jay_compositor::backends::metal::allocator::Prepared;
use jay_compositor::backends::metal::allocator::PrimeMethod;
use jay_compositor::backends::metal::allocator::RenderBufferAllocationDebug;
use jay_compositor::backends::metal::allocator::RenderBufferCopy;
use jay_compositor::backends::metal::allocator::RenderBufferError;
use jay_compositor::backends::metal::allocator::RenderBufferInfo;
use jay_compositor::backends::metal::allocator::RenderBufferPrime;
use jay_compositor::backends::metal::allocator::ScanoutAllocationError;
use jay_compositor::backends::metal::allocator::ScanoutBufferErrorKind;
use jay_compositor::backends::metal::allocator::ScanoutSearch;
use jay_compositor::backends::metal::allocator::run_scanout_search;
use jay_compositor::backends::metal::allocator::create_buffer_set;
use jay_compositor::backends::metal::allocator::SyncFile;
use jay_compositor::backends::metal::allocator::TexSel;
use jay_compositor::backends::metal::allocator::clear_plan;
use jay_compositor::backends::metal::allocator::intersect_modifiers;
use jay_compositor::backends::metal::allocator::intersect_render_modifiers;
use jay_compositor::backends::metal::allocator::make_linear_only;
use jay_compositor::backends::metal::allocator::needs_render_usage;
use jay_compositor::backends::metal::allocator::plan_copy_to_new;
use jay_compositor::backends::metal::allocator::render_modifiers;
use jay_compositor::backends::metal::allocator::sample_modifiers;
use jay_compositor::backends::metal::allocator::scans_out_render_bo;
use jay_compositor::backends::metal::allocator::GBM_BO_USE_LINEAR;
use jay_compositor::backends::metal::allocator::GBM_BO_USE_RENDERING;
use jay_compositor::backends::metal::allocator::GBM_BO_USE_SCANOUT;
use jay_compositor::backends::metal::allocator::LINEAR_MODIFIER;

const X: u64 = 0x0100_0000_0000_0001;
const Y: u64 = 0x0100_0000_0000_0002;
const Z: u64 = 0x0100_0000_0000_0003;

fn w(needs: bool) -> GfxWriteModifier {
    GfxWriteModifier { needs_render_usage: needs }
}

fn fmt(write: &[(u64, bool)], read: &[u64]) -> GfxFormat {
    let mut write_modifiers = IndexMap::new();
    for &(m, n) in write {
        write_modifiers.insert(m, w(n));
    }
    let mut read_modifiers = IndexSet::new();
    for &m in read {
        read_modifiers.insert(m);
    }
    GfxFormat { write_modifiers, read_modifiers }
}

fn set(items: &[u64]) -> IndexSet<u64> {
    items.iter().copied().collect()
}

fn support(items: &[(u64, u32, u32)]) -> Vec<CopyDeviceSupport> {
    items
        .iter()
        .map(|&(modifier, max_width, max_height)| CopyDeviceSupport { modifier, max_width, max_height })
        .collect()
}

fn builder<'a>(
    render_fmt: &'a GfxFormat,
    plane: &'a IndexSet<u64>,
    width: i32,
    height: i32,
    cursor: bool,
) -> Builder<'a> {
    Builder {
        render_fmt,
        dev_fmt: None,
        plane_modifiers: plane,
        width,
        height,
        cursor,
        render_copy_device: None,
        dev_copy_device: None,
        udmabuf_available: false,
    }
}

#[test]
fn render_and_sample_modifiers_keep_the_gfx_order() {
    let f = fmt(&[(Y, false), (LINEAR_MODIFIER, false), (X, true)], &[X, Y]);
    assert_eq!(render_modifiers(&f), vec![Y, LINEAR_MODIFIER, X]);
    assert_eq!(sample_modifiers(&f), vec![X, Y]);
}

#[test]
fn intersect_keeps_the_left_order() {
    assert_eq!(intersect_modifiers(&[Z, X, Y], &[Y, X]), vec![X, Y]);
    assert_eq!(intersect_modifiers(&[Z, X, Y], &[Y, Z]), vec![Z, Y]);
    assert_eq!(intersect_modifiers(&[X], &[]), Vec::<u64>::new());
    assert_eq!(intersect_modifiers(&[], &[X]), Vec::<u64>::new());
}

#[test]
fn intersect_render_needs_write_read_and_right() {
    let f = fmt(&[(X, false), (Y, false), (Z, false)], &[Z, Y]);
    assert_eq!(intersect_render_modifiers(&f, &[X, Y, Z]), vec![Y, Z]);
    assert_eq!(intersect_render_modifiers(&f, &[Z]), vec![Z]);
    assert_eq!(intersect_render_modifiers(&f, &[X]), Vec::<u64>::new());
}

#[test]
fn make_linear_only_reduces_to_linear() {
    let mut m = vec![X, LINEAR_MODIFIER, Y];
    make_linear_only(&mut m);
    assert_eq!(m, vec![LINEAR_MODIFIER]);
    let mut m = vec![X, Y];
    make_linear_only(&mut m);
    assert_eq!(m, vec![X, Y]);
    let mut m = vec![];
    make_linear_only(&mut m);
    assert_eq!(m, Vec::<u64>::new());
}

#[test]
fn needs_render_usage_is_any() {
    assert!(!needs_render_usage(&[]));
    assert!(!needs_render_usage(&[w(false), w(false)]));
    assert!(needs_render_usage(&[w(false), w(true)]));
}

#[test]
fn copy_modifiers_filter_by_size() {
    let f = fmt(&[], &[]);
    let plane = set(&[]);
    let b = builder(&f, &plane, 1920, 1080, false);
    let s = support(&[(X, 4096, 4096), (Y, 1024, 4096), (LINEAR_MODIFIER, 1920, 1080)]);
    assert_eq!(b.copy_modifiers(&s), vec![X, LINEAR_MODIFIER]);
    assert!(b.copy_supports_linear(&s));
    let small = support(&[(LINEAR_MODIFIER, 100, 100)]);
    assert!(!b.copy_supports_linear(&small));
    // A negative size compares as a huge unsigned size.
    let neg = builder(&f, &plane, -1, 10, false);
    assert_eq!(neg.copy_modifiers(&s), Vec::<u64>::new());
}

#[test]
fn usage_flags() {
    let f = fmt(&[(X, true)], &[]);
    let plane = set(&[]);
    let cursor = builder(&f, &plane, 64, 64, true);
    let mut usage = None;
    let s = BoAllocationSettings::new3(&cursor, &[X], true, true, &mut usage);
    assert_eq!(s.usage, GBM_BO_USE_SCANOUT | GBM_BO_USE_LINEAR | GBM_BO_USE_RENDERING);
    assert_eq!(s.usage, 21);
    assert_eq!(usage, Some(21));
    assert_eq!(s.modifiers, vec![X]);
    let s = BoAllocationSettings::new3(&cursor, &[X], false, false, &mut usage);
    assert_eq!(s.usage, 0);
    assert_eq!(usage, Some(0));
    let plain = builder(&f, &plane, 64, 64, false);
    let s = BoAllocationSettings::new2(&plain, &[X, Y], &f, true, true, &mut usage);
    assert_eq!(s.usage, GBM_BO_USE_SCANOUT | GBM_BO_USE_RENDERING);
    let s = BoAllocationSettings::new2(&plain, &[Y], &f, true, true, &mut usage);
    assert_eq!(s.usage, GBM_BO_USE_SCANOUT);
    let s = BoAllocationSettings::new1(&plain, &[(X, w(false)), (Y, w(true))], false, true, &mut usage);
    assert_eq!(s.usage, GBM_BO_USE_RENDERING);
    assert_eq!(s.modifiers, vec![X, Y]);
}

#[test]
fn prime_none_uses_plane_and_sampleable_modifiers() {
    let f = fmt(&[(X, false), (Y, true), (Z, false)], &[Y, Z]);
    let plane = set(&[Z, Y]);
    let b = builder(&f, &plane, 100, 100, false);
    let mut dbg = RenderBufferAllocationDebug::new();
    let p = b.prepare_prime_none(&mut dbg).unwrap();
    assert_eq!(p.allocation_settings.modifiers, vec![Y, Z]);
    assert_eq!(p.allocation_settings.usage, GBM_BO_USE_SCANOUT | GBM_BO_USE_RENDERING);
    assert_eq!(dbg.dev_modifiers_possible, Some(vec![Y, Z]));
    assert_eq!(dbg.dev_gfx_write_modifiers, Some(vec![X, Y, Z]));
    assert_eq!(dbg.dev_gfx_read_modifiers, Some(vec![Y, Z]));
    assert_eq!(dbg.render_usage, Some(5));
}

#[test]
fn prime_none_error() {
    let f = fmt(&[(X, false)], &[X]);
    let plane = set(&[Y]);
    let b = builder(&f, &plane, 100, 100, false);
    let mut dbg = RenderBufferAllocationDebug::new();
    let e = b.prepare_prime_none(&mut dbg).err().unwrap();
    assert!(matches!(e, ScanoutBufferErrorKind::SodWriteReadPlaneIntersection));
    assert_eq!(dbg.dev_modifiers_possible, Some(vec![]));
    assert_eq!(dbg.render_usage, None);
}

#[test]
fn prime_sampling() {
    let render = fmt(&[(X, false), (Y, true), (Z, false)], &[X, Y, Z]);
    let dev = fmt(&[(Z, false), (X, true)], &[Y, Z]);
    let plane = set(&[X]);
    let mut b = builder(&render, &plane, 100, 100, false);
    let mut dbg = RenderBufferAllocationDebug::new();
    let e = b.prepare_prime_sampling(&mut dbg).err().unwrap();
    assert!(matches!(e, ScanoutBufferErrorKind::SodUnsupportedFormat));
    b.dev_fmt = Some(&dev);
    let p = b.prepare_prime_sampling(&mut dbg).unwrap();
    assert_eq!(p.render_allocation_settings.modifiers, vec![Y, Z]);
    assert_eq!(p.render_allocation_settings.usage, GBM_BO_USE_RENDERING);
    assert_eq!(p.dev_allocation_settings.modifiers, vec![X]);
    assert_eq!(p.dev_allocation_settings.usage, GBM_BO_USE_SCANOUT | GBM_BO_USE_RENDERING);
    let plane2 = set(&[Y]);
    b.plane_modifiers = &plane2;
    let e = b.prepare_prime_sampling(&mut dbg).err().unwrap();
    assert!(matches!(e, ScanoutBufferErrorKind::SodWritePlaneIntersection));
    let dev2 = fmt(&[(Z, false)], &[]);
    b.dev_fmt = Some(&dev2);
    let e = b.prepare_prime_sampling(&mut dbg).err().unwrap();
    assert!(matches!(e, ScanoutBufferErrorKind::RenderWriteReadSodReadIntersection));
}

#[test]
fn direct_copy_pull_and_push() {
    let render = fmt(&[(X, false), (Y, false)], &[X, Y]);
    let plane = set(&[Z, LINEAR_MODIFIER, Y]);
    let dev_copy = CopyDeviceFormat {
        src_support: support(&[(Y, 8192, 8192)]),
        dst_support: support(&[(LINEAR_MODIFIER, 8192, 8192), (Z, 8192, 8192)]),
    };
    let mut b = builder(&render, &plane, 100, 100, false);
    let mut dbg = RenderBufferAllocationDebug::new();
    let e = b.prepare_direct_copy_pull(&mut dbg).err().unwrap();
    assert!(matches!(e, ScanoutBufferErrorKind::SodNoCopyDevice));
    b.dev_copy_device = Some(&dev_copy);
    let p = b.prepare_direct_copy_pull(&mut dbg).unwrap();
    assert_eq!(p.render_allocation_settings.modifiers, vec![Y]);
    assert_eq!(p.render_allocation_settings.usage, 0);
    // Linear is among the copyable plane modifiers, so only linear stays.
    assert_eq!(p.dev_allocation_settings.modifiers, vec![LINEAR_MODIFIER]);
    assert_eq!(p.dev_allocation_settings.usage, GBM_BO_USE_SCANOUT);
    assert_eq!(dbg.dev_copy_src_modifiers, Some(vec![Y]));
    assert_eq!(dbg.dev_copy_dst_modifiers, Some(vec![LINEAR_MODIFIER, Z]));
    assert_eq!(dbg.dev_modifiers_possible, Some(vec![LINEAR_MODIFIER]));
    let e = b.prepare_direct_copy_push(&mut dbg).err().unwrap();
    assert!(matches!(e, ScanoutBufferErrorKind::RenderNoCopyDevice));
    let render_copy = CopyDeviceFormat {
        src_support: support(&[(X, 8192, 8192)]),
        dst_support: support(&[(Z, 8192, 8192)]),
    };
    b.render_copy_device = Some(&render_copy);
    let mut dbg = RenderBufferAllocationDebug::new();
    let p = b.prepare_direct_copy_push(&mut dbg).unwrap();
    assert_eq!(p.render_allocation_settings.modifiers, vec![X]);
    assert_eq!(p.dev_allocation_settings.modifiers, vec![Z]);
    assert_eq!(dbg.render_copy_src_modifiers, Some(vec![X]));
    assert_eq!(dbg.render_copy_dst_modifiers, Some(vec![Z]));
    b.dev_copy_device = None;
    let e = b.prepare_direct_copy_push(&mut dbg).err().unwrap();
    assert!(matches!(e, ScanoutBufferErrorKind::SodNoCopyDevice));
}

#[test]
fn copy_errors() {
    let render = fmt(&[(X, false)], &[X]);
    let plane = set(&[Z]);
    let none = CopyDeviceFormat { src_support: support(&[(Y, 8192, 8192)]), dst_support: support(&[]) };
    let mut b = builder(&render, &plane, 100, 100, false);
    b.dev_copy_device = Some(&none);
    let mut dbg = RenderBufferAllocationDebug::new();
    let e = b.prepare_direct_copy_pull(&mut dbg).err().unwrap();
    assert!(matches!(e, ScanoutBufferErrorKind::RenderWriteReadSodCopySrcIntersection));
    let src_ok = CopyDeviceFormat { src_support: support(&[(X, 8192, 8192)]), dst_support: support(&[(Y, 8192, 8192)]) };
    b.dev_copy_device = Some(&src_ok);
    let e = b.prepare_direct_copy_pull(&mut dbg).err().unwrap();
    assert!(matches!(e, ScanoutBufferErrorKind::SodPlaneCopyDstIntersection));
    b.render_copy_device = Some(&src_ok);
    let e = b.prepare_direct_copy_push(&mut dbg).err().unwrap();
    assert!(matches!(e, ScanoutBufferErrorKind::SodPlaneRenderCopyDstIntersection));
    b.render_copy_device = Some(&none);
    let e = b.prepare_direct_copy_push(&mut dbg).err().unwrap();
    assert!(matches!(e, ScanoutBufferErrorKind::RenderWriteReadCopySrcIntersection));
}

#[test]
fn indirect_pull_and_udmabuf() {
    let render = fmt(&[(X, false)], &[X]);
    let plane = set(&[Z]);
    let render_copy = CopyDeviceFormat {
        src_support: support(&[(X, 8192, 8192)]),
        dst_support: support(&[(LINEAR_MODIFIER, 8192, 8192)]),
    };
    let dev_copy = CopyDeviceFormat {
        src_support: support(&[(LINEAR_MODIFIER, 8192, 8192)]),
        dst_support: support(&[(Z, 8192, 8192)]),
    };
    let no_linear = CopyDeviceFormat { src_support: support(&[(X, 8192, 8192)]), dst_support: support(&[(Z, 8192, 8192)]) };
    let mut b = builder(&render, &plane, 100, 100, false);
    let mut dbg = RenderBufferAllocationDebug::new();
    assert!(matches!(b.prepare_indirect_copy_pull(&mut dbg).err().unwrap(), ScanoutBufferErrorKind::RenderNoCopyDevice));
    assert!(matches!(b.prepare_copy_udmabuf(&mut dbg).err().unwrap(), ScanoutBufferErrorKind::UdmabufNotAvailable));
    b.udmabuf_available = true;
    assert!(matches!(b.prepare_copy_udmabuf(&mut dbg).err().unwrap(), ScanoutBufferErrorKind::RenderNoCopyDevice));
    b.render_copy_device = Some(&render_copy);
    assert!(matches!(b.prepare_indirect_copy_pull(&mut dbg).err().unwrap(), ScanoutBufferErrorKind::SodNoCopyDevice));
    assert!(matches!(b.prepare_copy_udmabuf(&mut dbg).err().unwrap(), ScanoutBufferErrorKind::SodNoCopyDevice));
    b.dev_copy_device = Some(&no_linear);
    assert!(matches!(b.prepare_indirect_copy_pull(&mut dbg).err().unwrap(), ScanoutBufferErrorKind::SodNoCopyFromLinear));
    assert!(matches!(b.prepare_copy_udmabuf(&mut dbg).err().unwrap(), ScanoutBufferErrorKind::SodNoCopyFromLinear));
    b.render_copy_device = Some(&no_linear);
    assert!(matches!(b.prepare_indirect_copy_pull(&mut dbg).err().unwrap(), ScanoutBufferErrorKind::RenderNoCopyToLinear));
    assert!(matches!(b.prepare_copy_udmabuf(&mut dbg).err().unwrap(), ScanoutBufferErrorKind::RenderNoCopyToLinear));
    b.render_copy_device = Some(&render_copy);
    b.dev_copy_device = Some(&dev_copy);
    let mut dbg = RenderBufferAllocationDebug::new();
    let p = b.prepare_indirect_copy_pull(&mut dbg).unwrap();
    assert_eq!(p.render_allocation_settings.modifiers, vec![X]);
    assert_eq!(p.dev_allocation_settings.modifiers, vec![Z]);
    assert_eq!(dbg.render_copy_src_modifiers, Some(vec![X]));
    assert_eq!(dbg.dev_copy_dst_modifiers, Some(vec![Z]));
    let p = b.prepare_copy_udmabuf(&mut dbg).unwrap();
    assert_eq!(p.render_allocation_settings.modifiers, vec![X]);
    assert_eq!(p.dev_allocation_settings.modifiers, vec![Z]);
}

#[test]
fn prepare_dispatches_by_method() {
    let render = fmt(&[(X, false)], &[X]);
    let plane = set(&[X]);
    let b = builder(&render, &plane, 100, 100, false);
    let mut dbg = RenderBufferAllocationDebug::new();
    assert!(matches!(b.prepare(None, &mut dbg), Ok(Prepared::NoPrime(_))));
    assert!(matches!(
        b.prepare(Some(PrimeMethod::Sampling), &mut dbg),
        Err(ScanoutBufferErrorKind::SodUnsupportedFormat)
    ));
    assert!(matches!(b.prepare(Some(PrimeMethod::DirectPull), &mut dbg), Err(ScanoutBufferErrorKind::SodNoCopyDevice)));
}

#[test]
fn prime_method_names() {
    assert_eq!(PrimeMethod::DirectPull.name(), "direct-pull");
    assert_eq!(PrimeMethod::IndirectPull.name(), "indirect-pull");
    assert_eq!(PrimeMethod::DirectPush.name(), "direct-push");
    assert_eq!(PrimeMethod::Sampling.name(), "direct-sampling");
    assert_eq!(PrimeMethod::Udmabuf.name(), "udmabuf");
}

#[test]
fn prime_methods_default_order() {
    assert_eq!(prime_methods(None), vec![PrimeMethod::DirectPull, PrimeMethod::Sampling, PrimeMethod::IndirectPull, PrimeMethod::Udmabuf, PrimeMethod::DirectPush]);
    assert_eq!(prime_methods(Some("")), vec![PrimeMethod::DirectPull, PrimeMethod::Sampling, PrimeMethod::IndirectPull, PrimeMethod::Udmabuf, PrimeMethod::DirectPush]);
}

#[test]
fn prime_methods_reorder_and_exclude() {
    assert_eq!(prime_methods(Some("udmabuf,direct-push")), vec![PrimeMethod::Udmabuf, PrimeMethod::DirectPush, PrimeMethod::DirectPull, PrimeMethod::Sampling, PrimeMethod::IndirectPull]);
    assert_eq!(prime_methods(Some(" -direct-pull , udmabuf ")), vec![PrimeMethod::Udmabuf, PrimeMethod::Sampling, PrimeMethod::IndirectPull, PrimeMethod::DirectPush]);
    // The first naming of a method counts.
    assert_eq!(prime_methods(Some("-udmabuf,udmabuf")), vec![PrimeMethod::DirectPull, PrimeMethod::Sampling, PrimeMethod::IndirectPull, PrimeMethod::DirectPush]);
    assert_eq!(prime_methods(Some("udmabuf,-udmabuf")), vec![PrimeMethod::Udmabuf, PrimeMethod::DirectPull, PrimeMethod::Sampling, PrimeMethod::IndirectPull, PrimeMethod::DirectPush]);
    // Unknown names and blank fields are skipped.
    assert_eq!(prime_methods(Some("bogus,,\tdirect-sampling\n")), vec![PrimeMethod::Sampling, PrimeMethod::DirectPull, PrimeMethod::IndirectPull, PrimeMethod::Udmabuf, PrimeMethod::DirectPush]);
    assert_eq!(
        prime_methods(Some("-direct-pull,-direct-sampling,-indirect-pull,-udmabuf,-direct-push")),
        Vec::<PrimeMethod>::new()
    );
    // Unicode whitespace is trimmed too.
    assert_eq!(prime_methods(Some("\u{2003}udmabuf\u{3000}")), vec![PrimeMethod::Udmabuf, PrimeMethod::DirectPull, PrimeMethod::Sampling, PrimeMethod::IndirectPull, PrimeMethod::DirectPush]);
}

#[test]
fn render_buffer_prime_methods() {
    assert_eq!(RenderBufferPrime::NoPrime.method(), None);
    assert_eq!(RenderBufferPrime::Sampling.method(), Some(PrimeMethod::Sampling));
    assert_eq!(RenderBufferPrime::CopyUdmabuf.method(), Some(PrimeMethod::Udmabuf));
    assert_eq!(RenderBufferPrime::CopyDirectPull.method(), Some(PrimeMethod::DirectPull));
    assert_eq!(RenderBufferPrime::CopyDirectPush.method(), Some(PrimeMethod::DirectPush));
    assert_eq!(RenderBufferPrime::CopyIndirectPull.method(), Some(PrimeMethod::IndirectPull));
    assert!(scans_out_render_bo(RenderBufferPrime::NoPrime));
    assert!(!scans_out_render_bo(RenderBufferPrime::Sampling));
}

#[test]
fn for_both_blocks_both() {
    let sf = Some(SyncFile { id: 7 });
    assert_eq!(RenderBufferCopy::for_both(sf), RenderBufferCopy { render_block: sf, present_block: sf });
    assert_eq!(RenderBufferCopy::for_both(None), RenderBufferCopy { render_block: None, present_block: None });
}

#[test]
fn copy_to_dev_without_prime_passes_the_sync_file() {
    let sf = Some(SyncFile { id: 1 });
    let (_, step) = CopyToDev::start(RenderBufferPrime::NoPrime, sf);
    match step {
        CopyToDevStep::Done(Ok(c)) => assert_eq!(c, RenderBufferCopy { render_block: None, present_block: sf }),
        _ => panic!("unexpected step"),
    }
}

#[test]
fn copy_to_dev_through_udmabuf() {
    let sf = Some(SyncFile { id: 1 });
    let (mut c, step) = CopyToDev::start(RenderBufferPrime::CopyUdmabuf, sf);
    assert!(matches!(step, CopyToDevStep::Execute { op: CopyOp::RenderCopy, sync } if sync == sf));
    let rb = Some(SyncFile { id: 2 });
    let step = c.resume(Ok(rb));
    assert!(matches!(step, CopyToDevStep::Execute { op: CopyOp::DevCopy, sync } if sync == rb));
    let pb = Some(SyncFile { id: 3 });
    match c.resume(Ok(pb)) {
        CopyToDevStep::Done(Ok(copy)) => assert_eq!(copy, RenderBufferCopy { render_block: rb, present_block: pb }),
        _ => panic!("unexpected step"),
    }
}

#[test]
fn copy_to_dev_errors() {
    let (mut c, _) = CopyToDev::start(RenderBufferPrime::CopyIndirectPull, None);
    assert!(matches!(c.resume(Err("a".to_string())), CopyToDevStep::Done(Err(RenderBufferError::CopyRenderToUdmabuf(m))) if m == "a"));
    let (mut c, _) = CopyToDev::start(RenderBufferPrime::CopyIndirectPull, None);
    let _ = c.resume(Ok(None));
    assert!(matches!(c.resume(Err("b".to_string())), CopyToDevStep::Done(Err(RenderBufferError::CopyUdmabufToDev(m))) if m == "b"));
    let (mut c, step) = CopyToDev::start(RenderBufferPrime::Sampling, None);
    assert!(matches!(step, CopyToDevStep::Execute { op: CopyOp::DevFbCopyTexture, .. }));
    assert!(matches!(c.resume(Err("c".to_string())), CopyToDevStep::Done(Err(RenderBufferError::CopyToOutput(_)))));
    let (mut c, step) = CopyToDev::start(RenderBufferPrime::CopyDirectPull, None);
    assert!(matches!(step, CopyToDevStep::Execute { op: CopyOp::DevCopy, .. }));
    assert!(matches!(c.resume(Err("d".to_string())), CopyToDevStep::Done(Err(RenderBufferError::CopyRenderToDev(_)))));
    let (mut c, step) = CopyToDev::start(RenderBufferPrime::CopyDirectPush, None);
    assert!(matches!(step, CopyToDevStep::Execute { op: CopyOp::RenderCopy, .. }));
    let sf = Some(SyncFile { id: 9 });
    match c.resume(Ok(sf)) {
        CopyToDevStep::Done(Ok(copy)) => assert_eq!(copy, RenderBufferCopy::for_both(sf)),
        _ => panic!("unexpected step"),
    }
}

fn info(width: i32, height: i32, prime: RenderBufferPrime, render_gfx: u64, dev_gfx: u64) -> RenderBufferInfo {
    RenderBufferInfo { width, height, prime, render_gfx, dev_gfx }
}

#[test]
fn copy_to_new_plans() {
    let a = info(10, 10, RenderBufferPrime::NoPrime, 1, 1);
    let other_size = info(10, 11, RenderBufferPrime::NoPrime, 1, 1);
    assert!(matches!(plan_copy_to_new(&a, &other_size), Err(RenderBufferError::NotSameSize)));
    let b = info(10, 10, RenderBufferPrime::NoPrime, 1, 1);
    assert_eq!(
        plan_copy_to_new(&a, &b).unwrap(),
        CopyToNewPlan::Texture { fb: FbSel::NewRender, tex: TexSel::OldRender, import: false }
    );
    let s = info(10, 10, RenderBufferPrime::Sampling, 2, 3);
    assert_eq!(
        plan_copy_to_new(&a, &s).unwrap(),
        CopyToNewPlan::Texture { fb: FbSel::NewDev, tex: TexSel::OldRender, import: true }
    );
    let s2 = info(10, 10, RenderBufferPrime::Sampling, 5, 1);
    assert_eq!(
        plan_copy_to_new(&s2, &a).unwrap(),
        CopyToNewPlan::Texture { fb: FbSel::NewRender, tex: TexSel::OldDevRender, import: false }
    );
    let c = info(10, 10, RenderBufferPrime::CopyDirectPull, 1, 1);
    assert_eq!(plan_copy_to_new(&c, &a).unwrap(), CopyToNewPlan::CopyDevice { use_new_device: false });
    assert_eq!(plan_copy_to_new(&a, &c).unwrap(), CopyToNewPlan::CopyDevice { use_new_device: true });
}

#[test]
fn copy_to_new_steps() {
    let (mut c, op) = CopyToNew::start(CopyToNewPlan::CopyDevice { use_new_device: true });
    assert_eq!(op, CopyToNewOp::CreateCopy { use_new_device: true });
    assert!(matches!(c.resume(Ok(None)), CopyToNewStep::Run(CopyToNewOp::ExecuteCopy)));
    let sf = Some(SyncFile { id: 4 });
    assert!(matches!(c.resume(Ok(sf)), CopyToNewStep::Done(Ok(x)) if x == sf));
    let (mut c, _) = CopyToNew::start(CopyToNewPlan::CopyDevice { use_new_device: false });
    assert!(matches!(c.resume(Err("x".into())), CopyToNewStep::Done(Err(RenderBufferError::CreateCopyDeviceCopy(_)))));
    let (mut c, _) = CopyToNew::start(CopyToNewPlan::CopyDevice { use_new_device: false });
    let _ = c.resume(Ok(None));
    assert!(matches!(c.resume(Err("x".into())), CopyToNewStep::Done(Err(RenderBufferError::ExecuteCopyDeviceCopy(_)))));
    let plan = CopyToNewPlan::Texture { fb: FbSel::NewDev, tex: TexSel::OldRender, import: true };
    let (mut c, op) = CopyToNew::start(plan);
    assert_eq!(op, CopyToNewOp::ImportTexture { tex: TexSel::OldRender });
    assert!(matches!(
        c.resume(Ok(None)),
        CopyToNewStep::Run(CopyToNewOp::CopyTexture { fb: FbSel::NewDev, tex: TexSel::OldRender, imported: true })
    ));
    assert!(matches!(c.resume(Err("g".into())), CopyToNewStep::Done(Err(RenderBufferError::GfxError(_)))));
}

#[test]
fn clear_plans() {
    assert_eq!(clear_plan(RenderBufferPrime::NoPrime), (ClearTarget::RenderFb, false));
    assert_eq!(clear_plan(RenderBufferPrime::Sampling), (ClearTarget::DevFb, false));
    assert_eq!(clear_plan(RenderBufferPrime::CopyUdmabuf), (ClearTarget::RenderFb, true));
}

fn search(same: bool, cursor: bool) -> ScanoutSearch {
    let render_id = if same { 1 } else { 2 };
    match ScanoutSearch::new(
        true,
        "card0".to_string(),
        1,
        "renderD128".to_string(),
        render_id,
        "XRGB8888".to_string(),
        vec![0, 0x100000000000001],
        64,
        64,
        cursor,
        &[PrimeMethod::DirectPull, PrimeMethod::Udmabuf],
    ) {
        Ok(s) => s,
        Err(_) => panic!("search refused"),
    }
}

#[test]
fn scanout_search_tries_methods_in_order() {
    let mut s = search(false, false);
    assert!(s.blend_buffer());
    assert_eq!(s.next_attempt(), Some(Some(PrimeMethod::DirectPull)));
    s.record_failure(ScanoutBufferErrorKind::SodNoCopyDevice, RenderBufferAllocationDebug::new());
    assert_eq!(s.next_attempt(), Some(Some(PrimeMethod::Udmabuf)));
    s.record_failure(ScanoutBufferErrorKind::UdmabufNotAvailable, RenderBufferAllocationDebug::new());
    assert_eq!(s.next_attempt(), None);
    assert_eq!(s.failures().len(), 2);
    assert_eq!(s.failures()[0].render_name.as_deref(), Some("renderD128"));
    match s.into_error() {
        ScanoutAllocationError::AllocateScanoutBufferPrime(e) => {
            assert_eq!(e.errors.len(), 2);
            assert_eq!(e.errors[0].prime, Some(PrimeMethod::DirectPull));
            assert_eq!(e.errors[0].format, "XRGB8888");
            assert_eq!(e.errors[0].plane_modifiers, vec![0, 0x100000000000001]);
            assert_eq!(e.errors[1].prime, Some(PrimeMethod::Udmabuf));
            assert!(matches!(e.errors[1].kind, ScanoutBufferErrorKind::UdmabufNotAvailable));
        },
        _ => panic!("unexpected error"),
    }
}

#[test]
fn scanout_search_same_device() {
    let mut s = search(true, true);
    assert!(!s.blend_buffer());
    assert_eq!(s.next_attempt(), Some(None));
    s.record_failure(ScanoutBufferErrorKind::SodWriteReadPlaneIntersection, RenderBufferAllocationDebug::new());
    assert_eq!(s.next_attempt(), None);
    match s.into_error() {
        ScanoutAllocationError::AllocateScanoutBuffer(e) => {
            assert_eq!(e.prime, None);
            assert_eq!(e.render_name, None);
            assert_eq!(e.dev, "card0");
        },
        _ => panic!("unexpected error"),
    }
    let r = ScanoutSearch::new(false, String::new(), 0, String::new(), 0, String::new(), vec![], 1, 1, false, &[]);
    assert!(matches!(r, Err(ScanoutAllocationError::RenderUnsupportedFormat)));
}

#[test]
fn buffer_creation_steps() {
    let mut c = BufferCreation::new(Some(PrimeMethod::Udmabuf), 64, 32, 0x34325258);
    let mut ops = vec![];
    while let Some(op) = c.next_op() {
        ops.push(op);
        c.succeed();
    }
    assert_eq!(
        ops,
        vec![
            CreateOp::CreateUdmabuf,
            CreateOp::CreateRenderBo,
            CreateOp::ImportRenderImage,
            CreateOp::RenderTexture,
            CreateOp::RenderFramebuffer,
            CreateOp::ClearRender,
            CreateOp::CreateDevBo,
            CreateOp::AddDevFb,
            CreateOp::CreateRenderCopyToUdmabuf,
            CreateOp::CreateDevCopyFromUdmabuf,
        ]
    );
    let b = c.finish();
    assert_eq!(b.prime, RenderBufferPrime::CopyUdmabuf);
    assert_eq!((b.width, b.height, b.format, b.locked), (64, 32, 0x34325258, true));
    let mut c = BufferCreation::new(None, 64, 32, 0x34325258);
    for _ in 0..5 {
        c.succeed();
    }
    assert_eq!(c.next_op(), Some(CreateOp::AddRenderFb));
    let mut dbg = RenderBufferAllocationDebug::new();
    let e = c.fail("boom".to_string(), 11, 22, &mut dbg);
    assert!(matches!(e, ScanoutBufferErrorKind::SodAddfb2(m) if m == "boom"));
    assert_eq!(dbg.dev_modifier, Some(11));
    assert_eq!(dbg.render_modifier, None);
}

#[test]
fn buffer_creation_records_modifiers() {
    let mut c = BufferCreation::new(Some(PrimeMethod::DirectPull), 64, 32, 0x34325258);
    for _ in 0..7 {
        c.succeed();
    }
    assert_eq!(c.next_op(), Some(CreateOp::CreateDevCopyFromRender));
    let mut dbg = RenderBufferAllocationDebug::new();
    let e = c.fail("x".to_string(), 1, 2, &mut dbg);
    assert!(matches!(e, ScanoutBufferErrorKind::SodCreateCopyFromRender(_)));
    assert_eq!(dbg.render_modifier, Some(1));
    assert_eq!(dbg.dev_modifier, Some(2));
    let c = BufferCreation::new(Some(PrimeMethod::Sampling), 64, 32, 0x34325258);
    let mut dbg = RenderBufferAllocationDebug::new();
    let e = c.fail("y".to_string(), 1, 2, &mut dbg);
    assert!(matches!(e, ScanoutBufferErrorKind::RenderBufferAllocation(_)));
    assert_eq!(dbg.render_modifier, None);
    assert_eq!(dbg.dev_modifier, None);
}

#[test]
fn scanout_dev_plan_keeps_plane_modifiers_in_api_order() {
    let dev = fmt(&[(Y, false), (LINEAR_MODIFIER, false), (X, true)], &[]);
    let plane = set(&[X, Y]);
    let s = jay_compositor::backends::metal::allocator::scanout_dev_plan(Some(&dev), &plane, false).ok().unwrap();
    assert_eq!(s.modifiers, vec![Y, X]);
    assert_eq!(s.usage, GBM_BO_USE_SCANOUT | GBM_BO_USE_RENDERING);
    let plane = set(&[Y]);
    let s = jay_compositor::backends::metal::allocator::scanout_dev_plan(Some(&dev), &plane, true).ok().unwrap();
    assert_eq!(s.modifiers, vec![Y]);
    assert_eq!(s.usage, GBM_BO_USE_SCANOUT | GBM_BO_USE_LINEAR);
}

#[test]
fn scanout_dev_plan_errors() {
    let plane = set(&[Z]);
    let r = jay_compositor::backends::metal::allocator::scanout_dev_plan(None, &plane, false);
    assert!(matches!(r, Err(jay_compositor::backends::metal::ScanoutBufferErrorKind::SodUnsupportedFormat)));
    let dev = fmt(&[(X, false)], &[]);
    let r = jay_compositor::backends::metal::allocator::scanout_dev_plan(Some(&dev), &plane, false);
    assert!(matches!(r, Err(jay_compositor::backends::metal::ScanoutBufferErrorKind::SodNoWritableModifier)));
}

#[test]
fn scanout_bridge_plan_uses_what_the_device_reads() {
    let render = fmt(&[(X, true), (LINEAR_MODIFIER, false)], &[]);
    let dev = fmt(&[], &[LINEAR_MODIFIER]);
    let s = jay_compositor::backends::metal::allocator::scanout_bridge_plan(Some(&render), &dev).ok().unwrap();
    assert_eq!(s.modifiers, vec![LINEAR_MODIFIER]);
    assert_eq!(s.usage, GBM_BO_USE_LINEAR);
    let dev = fmt(&[], &[X, LINEAR_MODIFIER]);
    let s = jay_compositor::backends::metal::allocator::scanout_bridge_plan(Some(&render), &dev).ok().unwrap();
    assert_eq!(s.modifiers, vec![X, LINEAR_MODIFIER]);
    assert_eq!(s.usage, GBM_BO_USE_LINEAR | GBM_BO_USE_RENDERING);
    let r = jay_compositor::backends::metal::allocator::scanout_bridge_plan(None, &dev);
    assert!(matches!(r, Err(jay_compositor::backends::metal::ScanoutBufferErrorKind::RenderUnsupportedFormat)));
    let dev = fmt(&[], &[Z]);
    let r = jay_compositor::backends::metal::allocator::scanout_bridge_plan(Some(&render), &dev);
    assert!(matches!(r, Err(jay_compositor::backends::metal::ScanoutBufferErrorKind::RenderNoWritableModifier)));
}

#[test]
fn scanout_search_stops_at_first_success() {
    let mut s = search(false, false);
    assert_eq!(s.next_attempt(), Some(Some(PrimeMethod::DirectPull)));
    s.record_failure(ScanoutBufferErrorKind::SodNoCopyDevice, RenderBufferAllocationDebug::new());
    assert_eq!(s.next_attempt(), Some(Some(PrimeMethod::Udmabuf)));
    assert_eq!(s.record_success(), Some(PrimeMethod::Udmabuf));
    assert_eq!(s.next_attempt(), None);
    assert_eq!(s.failures().len(), 1);
}

#[test]
fn run_scanout_search_returns_first_working_method() {
    let s = search(false, false);
    let r = run_scanout_search(s, |m| match m {
        Some(PrimeMethod::DirectPull) => Err((ScanoutBufferErrorKind::SodNoCopyDevice, RenderBufferAllocationDebug::new())),
        _ => Ok(7u32),
    });
    match r {
        Ok((m, b, fails)) => {
            assert_eq!(m, Some(PrimeMethod::Udmabuf));
            assert_eq!(b, 7);
            assert_eq!(fails.len(), 1);
            assert_eq!(fails[0].prime, Some(PrimeMethod::DirectPull));
        },
        Err(_) => panic!("search failed"),
    }
    let s = search(true, false);
    let r = run_scanout_search(s, |_m| -> Result<u32, _> {
        Err((ScanoutBufferErrorKind::UdmabufNotAvailable, RenderBufferAllocationDebug::new()))
    });
    assert!(matches!(r, Err(ScanoutAllocationError::AllocateScanoutBuffer(e)) if e.prime.is_none()));
}

#[test]
fn buffer_set_damages_first_buffer_fully() {
    let r: Result<Vec<(usize, bool)>, ()> = create_buffer_set(3, |k, full| Ok((k, full)));
    assert_eq!(r, Ok(vec![(0, true), (1, false), (2, false)]));
    let r: Result<Vec<usize>, usize> = create_buffer_set(3, |k, _| if k == 1 { Err(k) } else { Ok(k) });
    assert_eq!(r, Err(1));
}
