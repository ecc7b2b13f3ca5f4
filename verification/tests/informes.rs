use club_sem_rust::reportes::{
    recaudacion_controlada, recaudacion_por_categoria, socios_morosos,
    socios_no_morosos_por_actividad,
};
use club_sem_rust::{AccountId, CategoriasSocios, ClubSemRust, CostosCategoria, Deporte, ErrorClub, Pago, Socio};

fn duenio() -> AccountId {
    AccountId::from([0x1; 32])
}

fn extranio() -> AccountId {
    AccountId::from([0x2; 32])
}

fn socio_a() -> Socio {
    Socio::new("Ana".to_string(), 1, CategoriasSocios::A, Some(Deporte::Futbol))
}

fn socio_b() -> Socio {
    Socio::new("Beto".to_string(), 2, CategoriasSocios::B, Some(Deporte::Tenis))
}

fn socio_c() -> Socio {
    Socio::new("Caro".to_string(), 3, CategoriasSocios::C, None)
}

fn club_con(socios: Vec<Socio>, pagos: Vec<Pago>) -> ClubSemRust {
    ClubSemRust {
        costos: CostosCategoria::new(5000, 6000, 4000, 100, 3),
        socios,
        pagos,
        owner: duenio(),
        permitidos: Vec::new(),
        politica_activada: true,
        emision_ultimo_pago: Some(0),
    }
}

#[test]
fn recaudacion_de_tres_categorias() {
    let pagos = vec![
        Pago::new(1, 5000, 100, Some(50), false),
        Pago::new(2, 6000, 100, Some(50), false),
        Pago::new(3, 4000, 100, Some(50), false),
        Pago::new(1, 5000, 200, None, false),
        Pago::new(3, 4000, 200, None, false),
    ];
    let club = club_con(vec![socio_a(), socio_b(), socio_c()], pagos);
    assert_eq!(
        club.informe_recaudacion(duenio()),
        Ok(vec![(CategoriasSocios::A, 5000), (CategoriasSocios::B, 6000), (CategoriasSocios::C, 4000)])
    );
    assert_eq!(club.informe_recaudacion(extranio()), Err(ErrorClub::PermissionDenied));
}

#[test]
fn recaudacion_suma_por_categoria_del_socio() {
    let socios = vec![socio_c(), socio_a(), Socio::new("Otra".to_string(), 4, CategoriasSocios::A, None)];
    let pagos = vec![
        Pago::new(1, 10, 100, Some(500), true),
        Pago::new(4, 7, 100, Some(1), false),
        Pago::new(3, 3, 100, Some(1), false),
        Pago::new(1, 100, 100, None, false),
        Pago::new(4, 1, 100, Some(1), false),
    ];
    assert_eq!(
        recaudacion_por_categoria(&socios, &pagos),
        vec![(CategoriasSocios::A, 18), (CategoriasSocios::B, 0), (CategoriasSocios::C, 3)]
    );
    assert_eq!(
        recaudacion_por_categoria(&Vec::new(), &Vec::new()),
        vec![(CategoriasSocios::A, 0), (CategoriasSocios::B, 0), (CategoriasSocios::C, 0)]
    );
}

#[test]
fn recaudacion_controlada_detecta_lo_que_no_se_puede_informar() {
    let socios = vec![socio_a()];
    let sin_socio = vec![Pago::new(9, 10, 100, Some(1), false)];
    assert_eq!(recaudacion_controlada(&socios, &sin_socio), None);
    let pendiente_sin_socio = vec![Pago::new(9, 10, 100, None, false)];
    assert_eq!(
        recaudacion_controlada(&socios, &pendiente_sin_socio),
        Some(vec![(CategoriasSocios::A, 0), (CategoriasSocios::B, 0), (CategoriasSocios::C, 0)])
    );
    let desborda = vec![Pago::new(1, u128::MAX, 100, Some(1), false), Pago::new(1, 1, 100, Some(1), false)];
    assert_eq!(recaudacion_controlada(&socios, &desborda), None);
    let justo = vec![Pago::new(1, u128::MAX - 1, 100, Some(1), false), Pago::new(1, 1, 100, Some(1), false)];
    assert_eq!(
        recaudacion_controlada(&socios, &justo),
        Some(vec![(CategoriasSocios::A, u128::MAX), (CategoriasSocios::B, 0), (CategoriasSocios::C, 0)])
    );
}

#[test]
fn morosos_en_orden_de_primera_deuda_y_sin_repetir() {
    let socios = vec![socio_a(), socio_b(), socio_c()];
    let pagos = vec![
        Pago::new(3, 10, 100, None, false),
        Pago::new(1, 10, 100, Some(150), false),
        Pago::new(2, 10, 200, None, false),
        Pago::new(1, 10, 50, None, false),
        Pago::new(3, 10, 60, None, false),
        Pago::new(9, 10, 60, None, false),
    ];
    assert_eq!(socios_morosos(&socios, &pagos, 101), vec![socio_c(), socio_a()]);
    assert_eq!(socios_morosos(&socios, &pagos, 100), vec![socio_a(), socio_c()]);
    assert_eq!(socios_morosos(&socios, &pagos, 201), vec![socio_c(), socio_b(), socio_a()]);
    assert_eq!(socios_morosos(&socios, &pagos, 50), Vec::<Socio>::new());
    assert_eq!(socios_morosos(&socios, &pagos, 51), vec![socio_a()]);
}

#[test]
fn morosos_dos_veces_da_lo_mismo() {
    let pagos = vec![
        Pago::new(3, 10, 100, None, false),
        Pago::new(2, 10, 90, None, false),
        Pago::new(3, 10, 60, None, false),
    ];
    let club = club_con(vec![socio_a(), socio_b(), socio_c()], pagos);
    let primera = club.informe_morosos(duenio(), 1000);
    let segunda = club.informe_morosos(duenio(), 1000);
    assert_eq!(primera, Ok(vec![socio_c(), socio_b()]));
    assert_eq!(primera, segunda);
    assert_eq!(club.informe_morosos(extranio(), 1000), Err(ErrorClub::PermissionDenied));
}

#[test]
fn habilitados_para_tenis_y_gimnasio() {
    let socios = vec![socio_a(), socio_b(), socio_c()];
    let pagos = vec![
        Pago::new(1, 10, 100, None, false),
        Pago::new(2, 10, 100, None, false),
        Pago::new(3, 10, 100, None, false),
    ];
    assert_eq!(socios_no_morosos_por_actividad(&socios, &pagos, 100, 6), Ok(vec![socio_a(), socio_b()]));
    assert_eq!(
        socios_no_morosos_por_actividad(&socios, &pagos, 100, 8),
        Ok(vec![socio_a(), socio_b(), socio_c()])
    );
    assert_eq!(socios_no_morosos_por_actividad(&socios, &pagos, 100, 1), Ok(vec![socio_a()]));
    assert_eq!(socios_no_morosos_por_actividad(&socios, &pagos, 100, 9), Err(ErrorClub::InvalidActivity));
    assert_eq!(socios_no_morosos_por_actividad(&socios, &pagos, 100, 0), Err(ErrorClub::InvalidActivity));
}

#[test]
fn habilitados_excluye_a_los_morosos() {
    let socios = vec![socio_a(), socio_b(), socio_c()];
    let pagos = vec![
        Pago::new(1, 10, 100, None, false),
        Pago::new(2, 10, 300, None, false),
        Pago::new(3, 10, 200, None, false),
    ];
    let club = club_con(socios, pagos);
    assert_eq!(club.informe_actividad(duenio(), 150, 6), Ok(vec![socio_b()]));
    assert_eq!(club.informe_actividad(duenio(), 150, 8), Ok(vec![socio_b(), socio_c()]));
    assert_eq!(club.informe_actividad(duenio(), 250, 8), Ok(vec![socio_b()]));
    assert_eq!(club.informe_actividad(duenio(), 301, 8), Ok(Vec::new()));
    assert_eq!(club.informe_actividad(extranio(), 150, 99), Err(ErrorClub::PermissionDenied));
    assert_eq!(club.informe_actividad(duenio(), 150, 99), Err(ErrorClub::InvalidActivity));
}
