use bridgl::address::{derive_controller, derive_vault, derive_wrapped_mint};

#[test]
fn derivation_is_deterministic() {
    let pid = vec![7u8; 32];
    let a = derive_wrapped_mint(&pid, 1, &vec![2; 20], &vec![3; 32]).unwrap();
    let b = derive_wrapped_mint(&pid, 1, &vec![2; 20], &vec![3; 32]).unwrap();
    assert_eq!(a, b);
    assert_eq!(a.0.len(), 32);
    let v = derive_vault(&pid, 1, &vec![2; 20], &vec![3; 32]).unwrap();
    let w = derive_vault(&pid, 1, &vec![2; 20], &vec![3; 32]).unwrap();
    assert_eq!(v, w);
}

#[test]
fn derivation_separates_its_inputs() {
    let pid = vec![7u8; 32];
    let base = derive_wrapped_mint(&pid, 1, &vec![2; 20], &vec![3; 32]).unwrap().0;
    let others = vec![
        derive_vault(&pid, 1, &vec![2; 20], &vec![3; 32]).unwrap().0,
        derive_wrapped_mint(&pid, 2, &vec![2; 20], &vec![3; 32]).unwrap().0,
        derive_wrapped_mint(&pid, 1, &vec![4; 20], &vec![3; 32]).unwrap().0,
        derive_wrapped_mint(&pid, 1, &vec![2; 20], &vec![5; 32]).unwrap().0,
        derive_wrapped_mint(&vec![8u8; 32], 1, &vec![2; 20], &vec![3; 32]).unwrap().0,
    ];
    for o in &others {
        assert_ne!(&base, o);
    }
    for i in 0..others.len() {
        for j in (i + 1)..others.len() {
            assert_ne!(others[i], others[j]);
        }
    }
}

#[test]
fn over_long_seed_has_no_address() {
    let pid = vec![7u8; 32];
    assert!(derive_wrapped_mint(&pid, 1, &vec![2; 33], &vec![3; 32]).is_none());
    assert!(derive_vault(&pid, 1, &vec![2; 20], &vec![3; 64]).is_none());
}

#[test]
fn controller_address_is_stable() {
    let pid = vec![7u8; 32];
    assert_eq!(derive_controller(&pid), derive_controller(&pid));
    assert_ne!(derive_controller(&pid).unwrap().0, pid);
}
