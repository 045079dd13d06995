use citro3d::command::Command;
use citro3d::math::{FVec4, IVec, Matrix4};
use citro3d::shader;
use citro3d::uniform::{check_span, BindError, Index, Uniform};
use citro3d::{Context, Instance};

fn fresh() -> Instance {
    Instance::new(&mut Context::new(), true).unwrap()
}

fn all_kinds() -> Vec<Uniform> {
    let f = FVec4::new(1, 2, 3, 4);
    vec![
        Uniform::Float(f),
        Uniform::Float2([f, f]),
        Uniform::Float3([f, f, f]),
        Uniform::Float4(Matrix4::from_rows([f, f, f, f])),
        Uniform::Bool(false),
        Uniform::Int(IVec::new(0, 0, 0, 0)),
    ]
}

#[test]
fn index_from_u8_and_back() {
    let index = Index::from(0x42u8);
    assert_eq!(index, Index(0x42));
    assert_eq!(i32::from(index), 0x42i32);
    assert_eq!(i32::from(Index::from(255u8)), 255i32);
    assert!(Index(3) < Index(4));
}

#[test]
fn index_range_is_the_bank_of_the_kind() {
    let expected: [(u8, u8); 6] =
        [(0x00, 0x60), (0x00, 0x60), (0x00, 0x60), (0x00, 0x60), (0x68, 0x79), (0x60, 0x64)];
    for (uniform, (start, end)) in all_kinds().iter().zip(expected.iter()) {
        let range = uniform.index_range();
        assert_eq!(range.start, Index(*start));
        assert_eq!(range.end, Index(*end));
    }
}

#[test]
fn banks_do_not_overlap() {
    let float = Uniform::Float(FVec4::new(0, 0, 0, 0)).index_range();
    let int = Uniform::Int(IVec::new(0, 0, 0, 0)).index_range();
    let boolean = Uniform::Bool(true).index_range();
    for i in 0u8..=255u8 {
        let index = Index(i);
        let hits: usize = [&float, &int, &boolean].iter().filter(|r| r.contains(&index)).count();
        assert!(hits <= 1);
    }
    assert!(!float.contains(&Index(0x60)));
    assert!(int.contains(&Index(0x60)));
    assert!(!int.contains(&Index(0x64)));
    assert!(!boolean.contains(&Index(0x67)));
    assert!(boolean.contains(&Index(0x68)));
}

#[test]
fn len_is_the_number_of_registers() {
    let lens: Vec<usize> = all_kinds().iter().map(|u| u.len()).collect();
    assert_eq!(lens, vec![1usize, 2, 3, 4, 1, 1]);
}

#[test]
fn check_index_accepts_exactly_the_positions_that_fit() {
    for uniform in all_kinds() {
        let range = uniform.index_range();
        let start: usize = range.start.0 as usize;
        let end: usize = range.end.0 as usize;
        for i in 0u8..=255u8 {
            let at: usize = i as usize;
            let expected = if at < start || at >= end {
                Err(BindError::IndexOutOfRange)
            } else if at + uniform.len() > end {
                Err(BindError::Overflow)
            } else {
                Ok(())
            };
            assert_eq!(uniform.check_index(Index(i)), expected);
        }
    }
}

#[test]
fn last_position_that_fits_is_accepted() {
    let f = FVec4::new(0, 0, 0, 0);
    assert_eq!(Uniform::Float(f).check_index(Index(0x5f)), Ok(()));
    assert_eq!(Uniform::Float2([f, f]).check_index(Index(0x5e)), Ok(()));
    assert_eq!(Uniform::Float2([f, f]).check_index(Index(0x5f)), Err(BindError::Overflow));
    assert_eq!(Uniform::Float3([f, f, f]).check_index(Index(0x5d)), Ok(()));
    assert_eq!(Uniform::Float3([f, f, f]).check_index(Index(0x5e)), Err(BindError::Overflow));
    let m = Matrix4::from_rows([f, f, f, f]);
    assert_eq!(Uniform::Float4(m).check_index(Index(0x5c)), Ok(()));
    assert_eq!(Uniform::Float4(m).check_index(Index(0x5d)), Err(BindError::Overflow));
    assert_eq!(Uniform::Float4(m).check_index(Index(0x60)), Err(BindError::IndexOutOfRange));
    assert_eq!(Uniform::Bool(true).check_index(Index(0x78)), Ok(()));
    assert_eq!(Uniform::Bool(true).check_index(Index(0x67)), Err(BindError::IndexOutOfRange));
}

#[test]
fn bind_bool_inside_the_bank_issues_one_write() {
    let uniform = Uniform::Bool(true);
    assert_eq!(uniform.check_index(Index(0x70)), Ok(()));
    let mut instance = fresh();
    uniform.bind(&mut instance, shader::Type::Vertex, Index(0x70));
    assert_eq!(
        instance.take_commands(),
        vec![Command::BoolUniform { stage: shader::Type::Vertex, index: 0x70, value: true }]
    );
}

#[test]
fn bind_bool_at_the_end_of_the_bank_is_refused() {
    assert_eq!(Uniform::Bool(true).check_index(Index(0x79)), Err(BindError::IndexOutOfRange));
}

#[test]
fn bind_int_at_the_last_register_of_the_bank() {
    let uniform = Uniform::Int(IVec::new(1, 2, 3, 255));
    assert_eq!(uniform.check_index(Index(0x63)), Ok(()));
    let mut instance = fresh();
    uniform.bind(&mut instance, shader::Type::Geometry, Index(0x63));
    assert_eq!(
        instance.take_commands(),
        vec![Command::IntUniform {
            stage: shader::Type::Geometry,
            index: 0x63,
            x: 1,
            y: 2,
            z: 3,
            w: 255
        }]
    );
}

#[test]
fn two_registers_at_the_last_register_of_the_bank_overflow() {
    let range = Uniform::Int(IVec::new(0, 0, 0, 0)).index_range();
    assert_eq!(check_span(&range, 1, Index(0x63)), Ok(()));
    assert_eq!(check_span(&range, 2, Index(0x63)), Err(BindError::Overflow));
    assert_eq!(check_span(&range, 2, Index(0x62)), Ok(()));
    assert_eq!(check_span(&range, 2, Index(0x64)), Err(BindError::IndexOutOfRange));
    assert_eq!(check_span(&range, 0, Index(0x5f)), Err(BindError::IndexOutOfRange));
    assert_eq!(check_span(&range, 1000, Index(0x60)), Err(BindError::Overflow));
}

#[test]
fn check_span_on_an_empty_range() {
    let range = Index(5)..Index(5);
    assert_eq!(check_span(&range, 0, Index(5)), Err(BindError::IndexOutOfRange));
    let backwards = Index(9)..Index(3);
    assert_eq!(check_span(&backwards, 1, Index(5)), Err(BindError::IndexOutOfRange));
}

#[test]
fn bind_float_issues_one_write() {
    let mut instance = fresh();
    Uniform::Float(FVec4::new(10, 20, 30, 40)).bind(&mut instance, shader::Type::Vertex, Index(0));
    assert_eq!(
        instance.take_commands(),
        vec![Command::FloatUniform {
            stage: shader::Type::Vertex,
            index: 0,
            x: 10,
            y: 20,
            z: 30,
            w: 40
        }]
    );
}

#[test]
fn bind_float2_and_float3_write_consecutive_registers() {
    let a = FVec4::new(1, 2, 3, 4);
    let b = FVec4::new(5, 6, 7, 8);
    let c = FVec4::new(9, 10, 11, 12);
    let stage = shader::Type::Geometry;
    let mut instance = fresh();
    Uniform::Float2([a, b]).bind(&mut instance, stage, Index(0x5e));
    assert_eq!(
        instance.take_commands(),
        vec![
            Command::FloatUniform { stage, index: 0x5e, x: 1, y: 2, z: 3, w: 4 },
            Command::FloatUniform { stage, index: 0x5f, x: 5, y: 6, z: 7, w: 8 },
        ]
    );
    Uniform::Float3([c, a, b]).bind(&mut instance, stage, Index(7));
    assert_eq!(
        instance.take_commands(),
        vec![
            Command::FloatUniform { stage, index: 7, x: 9, y: 10, z: 11, w: 12 },
            Command::FloatUniform { stage, index: 8, x: 1, y: 2, z: 3, w: 4 },
            Command::FloatUniform { stage, index: 9, x: 5, y: 6, z: 7, w: 8 },
        ]
    );
}

#[test]
fn bind_matrix_writes_one_register_for_each_row() {
    let cells: [u32; 16] = [1, 2, 3, 4, 5, 6, 7, 8, 9, 10, 11, 12, 13, 14, 15, 16];
    let matrix = Matrix4::from_cells_wzyx(cells);
    let stage = shader::Type::Vertex;
    let mut instance = fresh();
    Uniform::Float4(matrix).bind(&mut instance, stage, Index(0x5c));
    assert_eq!(
        instance.take_commands(),
        vec![
            Command::FloatUniform { stage, index: 0x5c, x: 4, y: 3, z: 2, w: 1 },
            Command::FloatUniform { stage, index: 0x5d, x: 8, y: 7, z: 6, w: 5 },
            Command::FloatUniform { stage, index: 0x5e, x: 12, y: 11, z: 10, w: 9 },
            Command::FloatUniform { stage, index: 0x5f, x: 16, y: 15, z: 14, w: 13 },
        ]
    );
}

#[test]
fn bind_adds_to_what_was_issued_before() {
    let mut instance = fresh();
    Uniform::Bool(false).bind(&mut instance, shader::Type::Vertex, Index(0x68));
    Uniform::Float(FVec4::new(0, 0, 0, 1)).bind(&mut instance, shader::Type::Vertex, Index(3));
    let commands = instance.take_commands();
    assert_eq!(commands.len(), 2);
    assert_eq!(
        commands[0],
        Command::BoolUniform { stage: shader::Type::Vertex, index: 0x68, value: false }
    );
    assert_eq!(
        commands[1],
        Command::FloatUniform { stage: shader::Type::Vertex, index: 3, x: 0, y: 0, z: 0, w: 1 }
    );
    assert_eq!(instance.buffer_info(), None);
    assert!(!instance.frame_open());
}

#[test]
fn uniform_from_each_kind_of_value() {
    let f = FVec4::new(1, 2, 3, 4);
    let m = Matrix4::from_rows([f, f, f, f]);
    assert!(matches!(Uniform::from(f), Uniform::Float(v) if v == f));
    assert!(matches!(Uniform::from([f, f]), Uniform::Float2(v) if v == [f, f]));
    assert!(matches!(Uniform::from([f, f, f]), Uniform::Float3(v) if v == [f, f, f]));
    assert!(matches!(Uniform::from(m), Uniform::Float4(v) if v == m));
    assert!(matches!(Uniform::from(&m), Uniform::Float4(v) if v == m));
    assert!(matches!(Uniform::from(true), Uniform::Bool(true)));
    let i = IVec::new(9, 8, 7, 6);
    assert!(matches!(Uniform::from(i), Uniform::Int(v) if v == i));
}

#[test]
fn try_bind_issues_the_writes_where_the_index_fits() {
    let mut instance = fresh();
    let f = FVec4::new(1, 2, 3, 4);
    let stage = shader::Type::Vertex;
    assert_eq!(Uniform::Float2([f, f]).try_bind(&mut instance, stage, Index(0x5e)), Ok(()));
    assert_eq!(
        instance.take_commands(),
        vec![
            Command::FloatUniform { stage, index: 0x5e, x: 1, y: 2, z: 3, w: 4 },
            Command::FloatUniform { stage, index: 0x5f, x: 1, y: 2, z: 3, w: 4 },
        ]
    );
}

#[test]
fn try_bind_issues_nothing_where_the_index_does_not_fit() {
    let mut instance = fresh();
    let f = FVec4::new(1, 2, 3, 4);
    let stage = shader::Type::Vertex;
    assert_eq!(
        Uniform::Float2([f, f]).try_bind(&mut instance, stage, Index(0x5f)),
        Err(BindError::Overflow)
    );
    assert_eq!(
        Uniform::Float(f).try_bind(&mut instance, stage, Index(0x60)),
        Err(BindError::IndexOutOfRange)
    );
    assert_eq!(
        Uniform::Bool(true).try_bind(&mut instance, stage, Index(0x79)),
        Err(BindError::IndexOutOfRange)
    );
    assert_eq!(
        Uniform::Int(IVec::new(1, 1, 1, 1)).try_bind(&mut instance, stage, Index(0x64)),
        Err(BindError::IndexOutOfRange)
    );
    assert_eq!(instance.take_commands(), vec![]);
}

#[test]
fn try_bind_agrees_with_check_index_everywhere() {
    for i in 0u8..=255u8 {
        for (uniform, same) in all_kinds().into_iter().zip(all_kinds()) {
            let mut instance = fresh();
            let expected = same.check_index(Index(i));
            let expected_writes: usize = if expected.is_ok() { same.len() } else { 0 };
            assert_eq!(uniform.try_bind(&mut instance, shader::Type::Geometry, Index(i)), expected);
            assert_eq!(instance.take_commands().len(), expected_writes);
        }
    }
}
