use skia::{Error, HandleTable, Paint, Path, Typeface};

#[test]
fn null_handle_is_unknown_error() {
    let mut t = HandleTable::new();
    assert_eq!(t.adopt(0), Err(Error::Unknown));
    assert!(!t.is_live(0));
    assert!(Paint::adopt(&mut t, 0).is_err());
    assert!(Path::adopt(&mut t, 0).is_err());
    assert!(Typeface::adopt(&mut t, 0).is_none());
}

#[test]
fn owned_handle_released_exactly_once() {
    let mut t = HandleTable::new();
    let p = Paint::adopt(&mut t, 7).unwrap();
    let q = Path::adopt(&mut t, 8).unwrap();
    assert_eq!(t.owners(7), Some(1));
    assert!(p.release(&mut t));
    assert!(!t.is_live(7));
    assert!(t.is_live(8));
    assert!(q.release(&mut t));
    assert!(!t.is_live(8));
}

#[test]
fn typeface_freed_only_by_last_owner() {
    let mut t = HandleTable::new();
    let a = Typeface::adopt(&mut t, 42).unwrap();
    let b = a.share(&mut t);
    let c = b.share(&mut t);
    assert_eq!(t.owners(42), Some(3));
    assert_eq!(c.handle(), 42);
    assert!(!a.release(&mut t));
    assert_eq!(t.owners(42), Some(2));
    assert!(!c.release(&mut t));
    assert_eq!(t.owners(42), Some(1));
    assert!(b.release(&mut t));
    assert_eq!(t.owners(42), None);
}

#[test]
fn factory_handing_out_live_typeface_adds_owner() {
    let mut t = HandleTable::new();
    let a = Typeface::acquire(&mut t, 50).unwrap();
    assert_eq!(t.owners(50), Some(1));
    let b = Typeface::acquire(&mut t, 50).unwrap();
    assert_eq!(t.owners(50), Some(2));
    assert!(Typeface::acquire(&mut t, 0).is_none());
    assert!(!a.release(&mut t));
    assert!(b.release(&mut t));
    assert!(!t.is_live(50));
}

#[test]
fn paint_typeface_gets_its_own_owner() {
    let mut t = HandleTable::new();
    let paint = Paint::adopt(&mut t, 1).unwrap();
    assert!(paint.get_typeface(&mut t, 0).is_none());
    let f = paint.get_typeface(&mut t, 60).unwrap();
    assert_eq!(f.handle(), 60);
    let g = paint.get_typeface(&mut t, 60).unwrap();
    assert_eq!(t.owners(60), Some(2));
    assert!(!f.release(&mut t));
    assert!(g.release(&mut t));
}
