use rekos::sky::{
    build_arc, kind_to_u32, Dso, DsoCatalogData, DsoIndex, DsoType, FovReticleLayer, KindFilter,
    LayerId, PipelineStep, RenderPipeline,
};

fn dso(ra_deg: i64, dec_deg: i64, kind: DsoType) -> Dso {
    Dso { ra_udeg: ra_deg * 1_000_000, dec_udeg: dec_deg * 1_000_000, kind }
}

#[test]
fn kind_codes_and_filter() {
    assert_eq!(kind_to_u32(DsoType::Galaxy), 0);
    assert_eq!(kind_to_u32(DsoType::GalaxyCluster), 6);
    let f = KindFilter { gx: true, oc: false, gc: true, nb: false, pn: false, snr: true, gal: false };
    assert!(f.allows(DsoType::Galaxy));
    assert!(!f.allows(DsoType::OpenCluster));
    assert!(f.allows(DsoType::SupernovaRemnant));
}

#[test]
fn index_lists_every_object_once_in_cell_order() {
    let cat = DsoCatalogData {
        dsos: vec![
            dso(200, 10, DsoType::Galaxy),
            dso(5, -85, DsoType::Nebula),
            dso(355, 89, DsoType::OpenCluster),
            dso(7, -81, DsoType::Galaxy),
            dso(-10, 95, DsoType::PlanetaryNebula),
        ],
    };
    let idx = DsoIndex::build(&cat);
    let all = idx.all_indices();
    let mut sorted = all.clone();
    sorted.sort();
    assert_eq!(sorted, vec![0, 1, 2, 3, 4]);
    // Cell (0, 0) holds objects 1 and 3 in catalog order; it comes first.
    assert_eq!(&all[..2], &[1, 3]);
    // Dec is clamped to +90: objects 2 and 4 share the last row.
    assert_eq!(&all[3..], &[2, 4]);
    let arc = build_arc(&cat);
    assert_eq!(arc.all_indices(), all);
}

#[test]
fn standard_pipeline_order_and_plan() {
    let p = RenderPipeline::standard(0u8);
    let layers = p.layers();
    assert_eq!(layers.len(), 18);
    assert_eq!(layers[0], LayerId::Ground);
    assert_eq!(layers[17], LayerId::InfoOverlay);
    let mut on = vec![false; 18];
    on[0] = true;
    on[14] = true;
    let plan = p.run_plan(&on, true, false);
    assert_eq!(
        plan,
        vec![
            PipelineStep::ClearGpuBuffers,
            PipelineStep::Clear(true),
            PipelineStep::Prepare(LayerId::Ground, true),
            PipelineStep::Prepare(LayerId::FovReticle, true),
            PipelineStep::Draw(LayerId::Ground),
            PipelineStep::Draw(LayerId::FovReticle),
        ]
    );
    let plan = p.run_plan(&on, false, true);
    assert_eq!(plan.len(), 8);
    assert_eq!(plan[4], PipelineStep::GpuText(LayerId::Ground));
}

#[test]
fn empty_pipeline_and_registration() {
    let mut p = RenderPipeline::empty(String::from("gpu"));
    assert!(p.layers().is_empty());
    p.register(LayerId::Stars);
    p.register(LayerId::Dso);
    assert_eq!(p.layers(), vec![LayerId::Stars, LayerId::Dso]);
    assert_eq!(p.gpu_prepare(), "gpu");
    p.gpu_prepare_mut().push('!');
    assert_eq!(p.gpu_prepare(), "gpu!");
    assert_eq!(p.run_plan(&vec![false, false], true, true), vec![PipelineStep::ClearGpuBuffers, PipelineStep::Clear(true)]);
}

#[test]
fn fov_reticle_layer() {
    let l = FovReticleLayer;
    assert_eq!(l.name(), "fov_reticle");
    assert!(l.enabled(true));
    assert!(!l.enabled(false));
}
