use skia::{BasicSurface, SaveLevel, SaveStack, SurfaceCall};

#[test]
fn restores_mirror_saves() {
    let s = BasicSurface::from_native(5).unwrap();
    let mut st = SaveStack::new(&s);
    assert_eq!(st.save(), SurfaceCall::Save { surface: 5 });
    assert_eq!(
        st.save_layer_alpha(true, Some(10)),
        SurfaceCall::SaveLayerAlpha { surface: 5, alpha: 10, bounded: true }
    );
    assert_eq!(
        st.save_layer_alpha(false, None),
        SurfaceCall::SaveLayerAlpha { surface: 5, alpha: 255, bounded: false }
    );
    assert_eq!(st.depth(), 3);
    let popped = st.restore_to(0);
    assert_eq!(
        popped,
        vec![
            SaveLevel::Layer { alpha: 255, bounded: false },
            SaveLevel::Layer { alpha: 10, bounded: true },
            SaveLevel::Plain,
        ]
    );
    assert_eq!(st.depth(), 0);
}

#[test]
fn early_exit_unwinds_inner_scope_only() {
    let s = BasicSurface::from_native(9).unwrap();
    let mut st = SaveStack::new(&s);
    st.save();
    let outer = st.depth();
    st.save();
    st.save_layer_alpha(false, Some(0));
    let popped = st.restore_to(outer);
    assert_eq!(popped.len(), 2);
    assert_eq!(popped[0], SaveLevel::Layer { alpha: 0, bounded: false });
    assert_eq!(st.depth(), 1);
    assert_eq!(st.restore(), Some((SaveLevel::Plain, SurfaceCall::Restore { surface: 9 })));
    assert_eq!(st.restore(), None);
}
