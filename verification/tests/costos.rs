use club_sem_rust::{CategoriasSocios, CostosCategoria};

#[test]
fn costos_categoria_new_valor_a_test() {
    let c1 = CostosCategoria::new(1000, 3000, 5000, 400, 3);
    assert_eq!(c1.a, 1000);
}

#[test]
fn costos_categoria_new_valor_b_test() {
    let c1 = CostosCategoria::new(1000, 3000, 5000, 400, 3);
    assert_eq!(c1.b, 3000);
}

#[test]
fn costos_categoria_new_valor_c_test() {
    let c1 = CostosCategoria::new(1000, 3000, 5000, 400, 3);
    assert_eq!(c1.c, 5000);
}

#[test]
fn costos_categoria_new_valor_beneficio_test() {
    let c1 = CostosCategoria::new(1000, 3000, 5000, 400, 3);
    assert_eq!(c1.beneficio, 400);
}

#[test]
fn costos_categoria_new_pagos_consecutivoss_test() {
    let c1 = CostosCategoria::new(1000, 3000, 5000, 400, 3);
    assert_eq!(c1.pagos_consecutivos_para_beneficio, 3);
}

#[test]
fn set_costo_a_test() {
    let mut c1 = CostosCategoria::new(1000, 3000, 5000, 400, 3);
    c1.set_costo(2500, &CategoriasSocios::A);
    assert_eq!(c1.a, 2500);
}

#[test]
fn set_costo_b_test() {
    let mut c1 = CostosCategoria::new(1000, 3000, 5000, 400, 3);
    c1.set_costo(2500, &CategoriasSocios::B);
    assert_eq!(c1.b, 2500);
}

#[test]
fn set_costo_c_test() {
    let mut c1 = CostosCategoria::new(1000, 3000, 5000, 400, 3);
    c1.set_costo(2500, &CategoriasSocios::C);
    assert_eq!(c1.c, 2500);
}

#[test]
fn get_costo_a_test() {
    let c1 = CostosCategoria::new(1000, 3000, 5000, 400, 3);
    let costo_recibido = c1.get_costo(&CategoriasSocios::A);
    assert_eq!(costo_recibido, 1000);
}

#[test]
fn get_costo_b_test() {
    let c1 = CostosCategoria::new(1000, 3000, 5000, 400, 3);
    let costo_recibido = c1.get_costo(&CategoriasSocios::B);
    assert_eq!(costo_recibido, 3000);
}

#[test]
fn get_costo_c_test() {
    let c1 = CostosCategoria::new(1000, 3000, 5000, 400, 3);
    let costo_recibido = c1.get_costo(&CategoriasSocios::C);
    assert_eq!(costo_recibido, 5000);
}

#[test]
fn set_beneficio_test() {
    let mut c1 = CostosCategoria::new(1000, 3000, 5000, 400, 3);
    c1.set_beneficio(500);
    assert_eq!(c1.beneficio, 500);
}

#[test]
fn set_pagos_consecutivos_para_beneficio_test() {
    let mut c1 = CostosCategoria::new(1000, 3000, 5000, 400, 3);
    c1.set_pagos_consecutivos_para_beneficio(5);
    assert_eq!(c1.pagos_consecutivos_para_beneficio, 5);
}

#[test]
fn set_costo_solo_cambia_su_categoria() {
    let mut c1 = CostosCategoria::new(1000, 3000, 5000, 400, 3);
    assert!(c1.set_costo(2500, &CategoriasSocios::B));
    assert_eq!(c1, CostosCategoria::new(1000, 2500, 5000, 400, 3));
    assert!(c1.set_beneficio(1));
    assert!(c1.set_pagos_consecutivos_para_beneficio(9));
    assert_eq!(c1, CostosCategoria::new(1000, 2500, 5000, 1, 9));
}
