use mikaboshi::error::InputError;
use mikaboshi::shengsi::{
    get_sheng_si,
    get_sheng_si_alloc,
    get_sheng_si_by_key,
    get_shengsi_mapping,
    state_from_key,
    ShengSiState,
};
use mikaboshi::test_mods::ShengSiParams;

#[test]
fn test_constant_sheng_si() {
    assert_eq!(get_sheng_si_by_key("sheng").unwrap().key, "sheng");
}

#[test]
fn sheng_si_records() {
    let si = get_sheng_si(ShengSiState::Si);
    assert_eq!((si.key, si.kanji, si.meaning), ("si", "死", "death"));
    let wang = get_sheng_si_by_key("wang").unwrap();
    assert_eq!((wang.key, wang.kanji, wang.meaning), ("wang", "旺", "prosperous"));
    assert_eq!(get_sheng_si_by_key("shuai").unwrap().meaning, "perishing");
    assert_eq!(get_sheng_si_by_key("life"), None);
    assert_eq!(state_from_key("sheng"), Some(ShengSiState::Sheng));
}

#[test]
fn test_constant_sheng_si_alloc_for_wang() {
    assert_eq!(get_sheng_si_alloc(0).wang[0], 0);
}

#[test]
fn test_constant_sheng_si_alloc_for_shuai() {
    assert_eq!(get_sheng_si_alloc(6).shuai[0], 5);
    assert_eq!(get_sheng_si_alloc(6).shuai[1], 4);
}

#[test]
fn sheng_si_alloc_edges() {
    let first = get_sheng_si_alloc(0);
    assert_eq!(first.wang, vec![0]);
    assert_eq!(first.sheng, vec![1, 2]);
    assert_eq!(first.shuai, vec![8]);
    // Candidates for 死 count down from 八白 (index 7): 6, 5, 4, 3.
    assert_eq!(first.si, vec![6, 5, 4, 3]);
    let six = get_sheng_si_alloc(6);
    assert_eq!(six.si, vec![3, 2, 1]);
    let eight = get_sheng_si_alloc(7);
    assert_eq!(eight.sheng, vec![8, 0]);
    assert_eq!(eight.shuai, vec![6, 5]);
    assert_eq!(eight.si, vec![4, 3, 2, 1]);
    let nine = get_sheng_si_alloc(8);
    assert_eq!(nine.sheng, vec![0, 1]);
    assert_eq!(nine.si, vec![5, 4, 3, 2]);
    let two = get_sheng_si_alloc(1);
    assert_eq!(two.shuai, vec![0, 8]);
    assert_eq!(two.si, vec![6, 5, 4]);
    assert_eq!(six.accessor("si"), Some(&vec![3, 2, 1]));
    assert_eq!(six.accessor("wang"), Some(&vec![6]));
    assert_eq!(six.accessor("other"), None);
}

#[test]
fn test_get_shengsi_mapping() {
    let res = get_shengsi_mapping(6, &[2, 0, 4, 7, 6, 5, 8, 3, 1]).unwrap();
    assert_eq!(res[0].unwrap().key, "si");
    assert_eq!(res[1], None);
    assert_eq!(res[2].unwrap().key, "shuai");
    assert_eq!(res[3].unwrap().key, "sheng");
    assert_eq!(res[4].unwrap().key, "wang");
    assert_eq!(res[5].unwrap().key, "shuai");
    assert_eq!(res[6].unwrap().key, "sheng");
    assert_eq!(res[7].unwrap().key, "si");
    assert_eq!(res[8].unwrap().key, "si");
}

#[test]
fn shengsi_mapping_later_states_win() {
    // With 一白 (index 0) at the centre, 九紫 (index 8) is declining only.
    let res = get_shengsi_mapping(0, &[0, 1, 2, 3, 4, 5, 6, 7, 8]).unwrap();
    let keys: Vec<Option<&str>> = res.iter().map(|c| c.map(|s| s.key)).collect();
    assert_eq!(
        keys,
        vec![
            Some("wang"),
            Some("sheng"),
            Some("sheng"),
            Some("si"),
            Some("si"),
            Some("si"),
            Some("si"),
            None,
            Some("shuai"),
        ]
    );
}

#[test]
fn shengsi_mapping_errors() {
    assert_eq!(
        get_shengsi_mapping(9, &[2, 0, 4, 7, 6, 5, 8, 3, 1]),
        Err(InputError::IndexOutOfRange)
    );
    assert_eq!(
        get_shengsi_mapping(6, &[2, 0, 4, 7, 6, 5, 8, 3, 9]),
        Err(InputError::IndexOutOfRange)
    );
    let params = ShengSiParams {
        unpan_id: 6,
        unpan_xing_chart: vec![2, 0, 4],
    };
    assert_eq!(params.mapping(), Err(InputError::WrongLength));
    let params = ShengSiParams {
        unpan_id: 6,
        unpan_xing_chart: vec![2, 0, 4, 7, 6, 5, 8, 3, 1],
    };
    assert_eq!(params.mapping(), get_shengsi_mapping(6, &[2, 0, 4, 7, 6, 5, 8, 3, 1]));
}
