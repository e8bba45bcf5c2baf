use rusty_kamping::epoch::PutRequest;
use rusty_kamping::error::WinError;
use rusty_kamping::group::Communicator;
use rusty_kamping::window::Win;

fn group(rank: i32, size: i32) -> Communicator {
    Communicator::new(rank, size).expect("valid group")
}

// Carries a planned put out on an in-process copy of every member's slice.
fn apply(slices: &mut Vec<Vec<f64>>, q: &PutRequest<f64>) {
    slices[q.target_rank as usize][q.target_disp as usize] = q.value;
}

#[test]
fn communicator_reports_rank_and_size() {
    let c = group(2, 4);
    assert_eq!(c.rank(), 2);
    assert_eq!(c.size(), 4);
    assert!(c.is_member(3));
    assert!(!c.is_member(4));
}

#[test]
fn communicator_rejects_inconsistent_values() {
    assert!(Communicator::new(4, 4).is_none());
    assert!(Communicator::new(-1, 4).is_none());
    assert!(Communicator::new(0, 0).is_none());
    assert!(Communicator::new(0, 1).is_some());
}

#[test]
fn window_layout_for_doubles() {
    let c = group(0, 4);
    let w = Win::<f64>::new(3, &c).unwrap();
    assert_eq!(w.length(), 3);
    assert_eq!(w.alloc_bytes(), 24);
    assert_eq!(w.disp_unit(), 8);
    assert_eq!(w.comm(), c);
}

#[test]
fn window_rejects_zero_sized_elements() {
    let c = group(0, 2);
    let r = Win::<()>::new(5, &c);
    assert_eq!(r.err(), Some(WinError::UnsupportedLayout { length: 5, elem_size: 0 }));
}

#[test]
fn window_rejects_unaddressable_length() {
    let c = group(0, 2);
    let r = Win::<u64>::new(usize::MAX, &c);
    assert_eq!(r.err(), Some(WinError::UnsupportedLayout { length: usize::MAX, elem_size: 8 }));
    let max_ok = (i64::MAX as usize) / 8;
    assert!(Win::<u64>::new(max_ok, &c).is_ok());
    assert!(Win::<u64>::new(max_ok + 1, &c).is_err());
}

#[test]
fn lock_remote_mut_accepts_every_member() {
    let c = group(1, 4);
    let w = Win::<f64>::new(1, &c).unwrap();
    for t in 0..4 {
        let l = w.lock_remote_mut(t).unwrap();
        assert_eq!(l.target(), t);
    }
}

#[test]
fn lock_remote_mut_one_past_last_rank_fails() {
    let c = group(0, 4);
    let w = Win::<f64>::new(1, &c).unwrap();
    let r = w.lock_remote_mut(c.size());
    assert_eq!(r.err(), Some(WinError::InvalidRank { rank: 4, size: 4 }));
    assert!(w.lock_remote_mut(usize::MAX).is_err());
}

#[test]
fn put_plans_one_element_transfer() {
    let c = group(0, 4);
    let w = Win::<f64>::new(2, &c).unwrap();
    let mut l = w.lock_remote_mut(3).unwrap();
    let q = l.put(&2.5, 1).unwrap();
    assert_eq!(q, PutRequest { target_rank: 3, target_disp: 1, byte_count: 8, value: 2.5 });
    assert_eq!(l.target(), 3);
}

#[test]
fn put_out_of_range_fails_without_transfer() {
    let c = group(0, 2);
    let w = Win::<f64>::new(2, &c).unwrap();
    let mut l = w.lock_remote_mut(1).unwrap();
    assert_eq!(l.put(&1.0, 2).err(), Some(WinError::IndexOutOfBounds { index: 2, length: 2 }));
    assert_eq!(
        l.put(&1.0, usize::MAX).err(),
        Some(WinError::IndexOutOfBounds { index: usize::MAX, length: 2 })
    );
}

#[test]
fn local_read_in_and_out_of_range() {
    let c = group(1, 2);
    let w = Win::<f64>::new(2, &c).unwrap();
    let data = vec![1.5, -4.0];
    let l = w.lock_local(&data);
    assert_eq!(l.len(), 2);
    assert_eq!(l.rank(), 1);
    assert_eq!(*l.index(0).unwrap(), 1.5);
    assert_eq!(*l.index(1).unwrap(), -4.0);
    assert_eq!(l.index(2).err(), Some(WinError::IndexOutOfBounds { index: 2, length: 2 }));
}

#[test]
fn single_put_then_read_round_trip() {
    let size = 3;
    let mut slices = vec![vec![0.0; 2]; size];
    let writer = group(0, size as i32);
    let w = Win::<f64>::new(2, &writer).unwrap();
    let mut l = w.lock_remote_mut(2).unwrap();
    let q = l.put(&7.25, 1).unwrap();
    apply(&mut slices, &q);
    let owner = group(2, size as i32);
    let ow = Win::<f64>::new(2, &owner).unwrap();
    let local = ow.lock_local(&slices[2]);
    assert_eq!(*local.index(1).unwrap(), 7.25);
    assert_eq!(*local.index(0).unwrap(), 0.0);
}

#[test]
fn rank_zero_broadcasts_pi_to_four_ranks() {
    let size: usize = 4;
    let mut slices = vec![vec![0.0; 1]; size];
    let root = group(0, size as i32);
    let w = Win::<f64>::new(1, &root).unwrap();
    for target in 0..root.size() {
        let mut remote = w.lock_remote_mut(target).unwrap();
        let q = remote.put(&3.14159265358979, 0).unwrap();
        apply(&mut slices, &q);
    }
    for rank in 0..size {
        let c = group(rank as i32, size as i32);
        let win = Win::<f64>::new(1, &c).unwrap();
        let local = win.lock_local(&slices[rank]);
        assert_eq!(*local.index(0).unwrap(), 3.14159265358979);
    }
}
