use libbridge::{collect_vlan_trunk, AppError, VlanError, VlanTrunk};

fn range(min: i32, max: i32) -> VlanTrunk {
    VlanTrunk { min_id: Some(min), max_id: Some(max), id: None }
}

fn single(id: i32) -> VlanTrunk {
    VlanTrunk { min_id: None, max_id: None, id: Some(id) }
}

fn collect(trunk: &[VlanTrunk]) -> Result<Vec<i32>, VlanError> {
    collect_vlan_trunk(Some(trunk)).map_err(|error| match error {
        AppError::Vlan(fault) => fault,
        other => panic!("not a trunk fault: {:?}", other),
    })
}

#[test]
fn no_list_and_an_empty_list_name_nothing() {
    assert_eq!(collect_vlan_trunk(None).unwrap(), Vec::<i32>::new());
    assert_eq!(collect(&[]), Ok(vec![]));
    let blank = VlanTrunk { min_id: None, max_id: None, id: None };
    assert_eq!(collect(&[blank]), Ok(vec![]));
}

#[test]
fn ids_come_out_sorted_and_once() {
    assert_eq!(
        collect(&[range(10, 12), single(5), range(11, 14), single(5), single(3)]),
        Ok(vec![3, 5, 10, 11, 12, 13, 14])
    );
}

#[test]
fn an_entry_may_hold_a_range_and_an_id() {
    let both = VlanTrunk { min_id: Some(7), max_id: Some(8), id: Some(2) };
    assert_eq!(collect(&[both]), Ok(vec![2, 7, 8]));
}

#[test]
fn the_bounds_of_the_id_space_are_allowed() {
    assert_eq!(collect(&[single(1), single(4094)]), Ok(vec![1, 4094]));
    assert_eq!(collect(&[range(4094, 4094)]), Ok(vec![4094]));
    let all = collect(&[range(1, 4094)]).unwrap();
    assert_eq!(all.len(), 4094);
    assert_eq!((all[0], all[4093]), (1, 4094));
}

#[test]
fn faults_of_a_range() {
    assert_eq!(collect(&[range(0, 5)]), Err(VlanError::IncorrectMinID));
    assert_eq!(collect(&[range(4095, 4096)]), Err(VlanError::IncorrectMinID));
    assert_eq!(collect(&[range(5, 4095)]), Err(VlanError::IncorrectMaxID));
    assert_eq!(collect(&[range(5, 0)]), Err(VlanError::IncorrectMaxID));
    assert_eq!(collect(&[range(6, 5)]), Err(VlanError::MinGreaterThanMax));
    assert_eq!(collect(&[range(i32::MIN, i32::MAX)]), Err(VlanError::IncorrectMinID));
}

#[test]
fn faults_of_half_a_range() {
    let upper = VlanTrunk { min_id: None, max_id: Some(5), id: None };
    let lower = VlanTrunk { min_id: Some(5), max_id: None, id: None };
    assert_eq!(collect(&[upper]), Err(VlanError::MissingMinID));
    assert_eq!(collect(&[lower]), Err(VlanError::MissingMaxID));
}

#[test]
fn faults_of_a_single_id() {
    assert_eq!(collect(&[single(0)]), Err(VlanError::IncorrectTrunkID));
    assert_eq!(collect(&[single(4095)]), Err(VlanError::IncorrectTrunkID));
    assert_eq!(collect(&[single(-1)]), Err(VlanError::IncorrectTrunkID));
}

#[test]
fn a_fault_in_the_range_comes_before_one_in_the_id() {
    let both = VlanTrunk { min_id: Some(9), max_id: None, id: Some(0) };
    assert_eq!(collect(&[both]), Err(VlanError::MissingMaxID));
}

#[test]
fn the_first_faulty_entry_is_reported() {
    assert_eq!(
        collect(&[single(4), range(9, 3), single(0)]),
        Err(VlanError::MinGreaterThanMax)
    );
    assert_eq!(collect(&[single(0), range(9, 3)]), Err(VlanError::IncorrectTrunkID));
}

#[test]
fn the_order_of_entries_does_not_matter() {
    let forward = collect(&[range(2, 4), single(9), range(3, 6)]);
    let backward = collect(&[range(3, 6), single(9), range(2, 4)]);
    assert_eq!(forward, Ok(vec![2, 3, 4, 5, 6, 9]));
    assert_eq!(forward, backward);
}

#[test]
fn collected_ids_collect_to_the_same_list() {
    let ids = collect(&[range(100, 103), single(7)]).unwrap();
    let singles: Vec<VlanTrunk> = ids.iter().map(|id| single(*id)).collect();
    assert_eq!(collect(&singles), Ok(ids));
}

#[test]
fn lists_in_a_row_name_what_either_names() {
    let first = vec![range(2, 3)];
    let second = vec![single(3), single(8)];
    let both: Vec<VlanTrunk> = first.iter().chain(second.iter()).copied().collect();
    assert_eq!(collect(&both), Ok(vec![2, 3, 8]));
}

#[test]
fn repeated_entries_change_nothing() {
    let once = collect(&[range(2, 4), single(9)]);
    let often = collect(&[single(9), range(2, 4), range(2, 4), single(9), single(9)]);
    assert_eq!(once, Ok(vec![2, 3, 4, 9]));
    assert_eq!(once, often);
}
