use easy::module::types::{
    FuncType, GlobalType, Limits, MemType, Mutability, NumType, RefType, ResultType, TableType,
    ValType, VecType,
};
use easy::Decode;

#[test]
fn test_num_type() {
    assert_eq!(NumType::decode(&[0x7F], 0), Ok((NumType::I32, 1)));
    assert_eq!(NumType::decode(&[0x7E], 0), Ok((NumType::I64, 1)));
    assert_eq!(NumType::decode(&[0x7D], 0), Ok((NumType::F32, 1)));
    assert_eq!(NumType::decode(&[0x7C], 0), Ok((NumType::F64, 1)));
    assert!(NumType::decode(&[0x7B], 0).is_err());
}

#[test]
fn test_vec_type() {
    assert_eq!(VecType::decode(&[0x7B], 0), Ok((VecType::V128, 1)));
    assert!(VecType::decode(&[0x7A], 0).is_err());
}

#[test]
fn test_ref_type() {
    assert_eq!(RefType::decode(&[0x70], 0), Ok((RefType::FuncRef, 1)));
    assert_eq!(RefType::decode(&[0x6F], 0), Ok((RefType::ExternRef, 1)));
    assert!(RefType::decode(&[0x7A], 0).is_err());
}

#[test]
fn test_val_type() {
    assert_eq!(
        ValType::decode(&[0x7F], 0),
        Ok((ValType::NumType(NumType::I32), 1))
    );
    assert_eq!(
        ValType::decode(&[0x7B], 0),
        Ok((ValType::VecType(VecType::V128), 1))
    );
    assert_eq!(
        ValType::decode(&[0x6F], 0),
        Ok((ValType::RefType(RefType::ExternRef), 1))
    );
    assert!(ValType::decode(&[0x1A], 0).is_err());
}

#[test]
fn test_result_type() {
    assert_eq!(
        ResultType::decode(&[0x02, 0x7F, 0x7F], 0),
        Ok((
            vec![ValType::NumType(NumType::I32), ValType::NumType(NumType::I32)],
            3
        ))
    );
    let not: &[u8] = &[0x02, 0xDD, 0x7F];
    assert!(ResultType::decode(not, 0).is_err());
}

#[test]
fn test_func_type() {
    assert_eq!(
        FuncType::decode(&[0x60, 0x02, 0x7F, 0x7F, 0x02, 0x7C, 0x7F], 0),
        Ok((
            FuncType {
                rt1: vec![ValType::NumType(NumType::I32), ValType::NumType(NumType::I32)],
                rt2: vec![ValType::NumType(NumType::F64), ValType::NumType(NumType::I32)],
            },
            7
        ))
    );
}

#[test]
fn test_limits_type() {
    assert_eq!(
        Limits::decode(&[0x00, 0x01], 0),
        Ok((Limits { min: 1, max: None }, 2))
    );
    assert_eq!(
        Limits::decode(&[0x01, 0x01, 0x02], 0),
        Ok((
            Limits {
                min: 1,
                max: Some(2)
            },
            3
        ))
    );
    assert!(Limits::decode(&[0x7A], 0).is_err());
}

#[test]
fn test_mem_type() {
    assert_eq!(
        MemType::decode(&[0x00, 0x01], 0),
        Ok((
            MemType {
                lim: Limits { min: 1, max: None }
            },
            2
        ))
    );
    assert_eq!(
        MemType::decode(&[0x01, 0x01, 0x02], 0),
        Ok((
            MemType {
                lim: Limits {
                    min: 1,
                    max: Some(2)
                }
            },
            3
        ))
    );
    assert!(MemType::decode(&[0x7A], 0).is_err());
}

#[test]
fn test_table_type() {
    assert_eq!(
        TableType::decode(&[0x70, 0x00, 0x01], 0),
        Ok((
            TableType {
                lim: Limits { min: 1, max: None },
                et: RefType::FuncRef
            },
            3
        ))
    );
    assert_eq!(
        TableType::decode(&[0x70, 0x01, 0x01, 0x02], 0),
        Ok((
            TableType {
                lim: Limits {
                    min: 1,
                    max: Some(2)
                },
                et: RefType::FuncRef
            },
            4
        ))
    );
    assert!(TableType::decode(&[0x7A], 0).is_err());
}

#[test]
fn test_global_type() {
    assert_eq!(
        GlobalType::decode(&[0x7F, 0x00], 0),
        Ok((
            GlobalType {
                m: Mutability::Const,
                t: ValType::NumType(NumType::I32),
            },
            2
        ))
    );
    assert!(GlobalType::decode(&[0x7A], 0).is_err());
}

#[test]
fn test_mutability_type() {
    assert_eq!(Mutability::decode(&[0x00], 0), Ok((Mutability::Const, 1)));
    assert_eq!(Mutability::decode(&[0x01], 0), Ok((Mutability::Var, 1)));
    assert!(Mutability::decode(&[0x7A], 0).is_err());
}

#[test]
fn types_test_num_type() {
    assert_eq!(NumType::decode(&[0x7F], 0), Ok((NumType::I32, 1)));
    assert_eq!(NumType::decode(&[0x7E], 0), Ok((NumType::I64, 1)));
    assert_eq!(NumType::decode(&[0x7D], 0), Ok((NumType::F32, 1)));
    assert_eq!(NumType::decode(&[0x7C], 0), Ok((NumType::F64, 1)));
    assert!(NumType::decode(&[0x7B], 0).is_err());
}

#[test]
fn types_test_vec_type() {
    assert_eq!(VecType::decode(&[0x7B], 0), Ok((VecType::V128, 1)));
    assert!(VecType::decode(&[0x7A], 0).is_err());
}

#[test]
fn types_test_ref_type() {
    assert_eq!(RefType::decode(&[0x70], 0), Ok((RefType::FuncRef, 1)));
    assert_eq!(RefType::decode(&[0x6F], 0), Ok((RefType::ExternRef, 1)));
    assert!(RefType::decode(&[0x7A], 0).is_err());
}

#[test]
fn types_test_val_type() {
    assert_eq!(
        ValType::decode(&[0x7F], 0),
        Ok((ValType::NumType(NumType::I32), 1))
    );
    assert_eq!(
        ValType::decode(&[0x7B], 0),
        Ok((ValType::VecType(VecType::V128), 1))
    );
    assert_eq!(
        ValType::decode(&[0x6F], 0),
        Ok((ValType::RefType(RefType::ExternRef), 1))
    );
    assert!(ValType::decode(&[0x1A], 0).is_err());
}

#[test]
fn types_test_result_type() {
    assert_eq!(
        ResultType::decode(&[0x02, 0x7F, 0x7F], 0),
        Ok((
            vec![ValType::NumType(NumType::I32), ValType::NumType(NumType::I32)],
            3
        ))
    );
    let not: &[u8] = &[0x02, 0xDD, 0x7F];
    assert!(ResultType::decode(not, 0).is_err());
}

#[test]
fn types_test_func_type() {
    assert_eq!(
        FuncType::decode(&[0x60, 0x02, 0x7F, 0x7F, 0x02, 0x7C, 0x7F], 0),
        Ok((
            FuncType {
                rt1: vec![ValType::NumType(NumType::I32), ValType::NumType(NumType::I32)],
                rt2: vec![ValType::NumType(NumType::F64), ValType::NumType(NumType::I32)],
            },
            7
        ))
    );
}
