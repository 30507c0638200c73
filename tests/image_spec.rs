use queryer::image_spec::{
    ApplyBlend, ApplyFilter, Blend, Filter, ImageSpec, Resize, ResizeType, SampleFilter, Spec,
    SpecData, Watermark,
};

#[test]
fn spec_builders() {
    assert_eq!(
        Spec::new_resize(600, 600, SampleFilter::CatmullRom).data,
        Some(SpecData::Resize(Resize {
            width: 600,
            height: 600,
            rtype: ResizeType::Normal,
            filter: SampleFilter::CatmullRom,
        }))
    );
    assert_eq!(
        Spec::new_resize_seam_carve(120, 180).data,
        Some(SpecData::Resize(Resize {
            width: 120,
            height: 180,
            rtype: ResizeType::SeamCarve,
            filter: SampleFilter::Undefined,
        }))
    );
    assert_eq!(
        Spec::new_filter(Filter::Marine).data,
        Some(SpecData::Filter(ApplyFilter { filter: Filter::Marine }))
    );
    assert_eq!(
        Spec::new_blend(Blend::Xor).data,
        Some(SpecData::Blend(ApplyBlend { blend: Blend::Xor }))
    );
    assert_eq!(
        Spec::watermark(120, 180).data,
        Some(SpecData::Watermark(Watermark { x: 120, y: 180 }))
    );
}

#[test]
fn image_spec_keeps_its_operations_in_order() {
    let specs = vec![Spec::new_filter(Filter::Marine), Spec::watermark(1, 2)];
    let image_spec = ImageSpec::new(specs.clone());
    assert_eq!(image_spec.specs, specs);
}

#[test]
fn filter_and_blend_names() {
    assert_eq!(Filter::Unspecified.to_str(), None);
    assert_eq!(Filter::Oceanic.to_str(), Some("oceanic"));
    assert_eq!(Filter::Serenity.to_str(), Some("serenity"));
    assert_eq!(Blend::SoftLight.to_str(), Some("softLight"));
    assert_eq!(Blend::Exclusion.to_str(), Some("exclusion"));
}
