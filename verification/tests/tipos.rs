use club_sem_rust::{CategoriasSocios, ConversionFecha, Deporte, ErrorClub, Socio};

#[test]
fn categoria_from_id_correctas_test() {
    let cat_a = CategoriasSocios::categoria_from_id(&1).unwrap();
    let cat_b = CategoriasSocios::categoria_from_id(&2).unwrap();
    let cat_c = CategoriasSocios::categoria_from_id(&3).unwrap();

    assert_eq!(cat_a, CategoriasSocios::A, "Debio ser categoria A");
    assert_eq!(cat_b, CategoriasSocios::B, "Debio ser categoria B");
    assert_eq!(cat_c, CategoriasSocios::C, "Debio ser categoria C");
}

#[test]
#[should_panic]
fn categoria_from_id_incorrecta_test() {
    let _cat = CategoriasSocios::categoria_from_id(&4).unwrap();
}

#[test]
fn categoria_from_id_fuera_de_rango_es_none() {
    assert_eq!(CategoriasSocios::categoria_from_id(&0), None);
    assert_eq!(CategoriasSocios::categoria_from_id(&4), None);
    assert_eq!(CategoriasSocios::categoria_from_id(&u32::MAX), None);
}

#[test]
fn new_socio_cat_a_y_c_test() {
    let ape_y_nom_c = "Michael Knight".to_string();
    let dni_c = 35198260;
    let cat_c = CategoriasSocios::categoria_from_id(&3).unwrap();
    let deporte_c = None;

    let socio_c = Socio::new(ape_y_nom_c.clone(), dni_c, cat_c.clone(), deporte_c.clone());

    let ape_y_nom_a = "Kenneth Hutchinson".to_string();
    let dni_a = 31195032;
    let cat_a = CategoriasSocios::categoria_from_id(&1).unwrap();
    let deporte_a = None;

    let socio_a = Socio::new(ape_y_nom_a.clone(), dni_a, cat_a.clone(), deporte_a.clone());

    assert_eq!(ape_y_nom_c, socio_c.apellido_y_nombre, "Deberia ser el mismo nombre en socio_c");
    assert_eq!(dni_c, socio_c.dni, "Deberia ser el mismo nombre en socio_c");
    assert_eq!(cat_c, socio_c.categoria, "Deberia ser la misma categoria en socio_c");
    assert_eq!(deporte_c, socio_c.deporte, "Deberia ser el mismo deporte en socio_c");

    assert_eq!(ape_y_nom_a, socio_a.apellido_y_nombre, "Deberia ser el mismo nombre en socio_a");
    assert_eq!(dni_a, socio_a.dni, "Deberia ser el mismo nombre en socio_a");
    assert_eq!(cat_a, socio_a.categoria, "Deberia ser la misma categoria en socio_a");
    assert_eq!(deporte_a, socio_a.deporte, "Deberia ser el mismo deporte en socio_a");
}

#[test]
fn new_socio_cat_b_test() {
    let ape_y_nom = "David Starsky".to_string();
    let dni = 30537974;
    let cat = CategoriasSocios::categoria_from_id(&2).unwrap();
    let deporte = Deporte::deporte_from_id(&Some(2)).unwrap();

    let socio = Socio::new(ape_y_nom.clone(), dni, cat.clone(), deporte.clone());

    assert_eq!(ape_y_nom, socio.apellido_y_nombre, "Deberia ser el mismo nombre en socio");
    assert_eq!(dni, socio.dni, "Deberia ser el mismo nombre en socio");
    assert_eq!(cat, socio.categoria, "Deberia ser la misma categoria en socio");
    assert_eq!(deporte, socio.deporte, "Deberia ser el mismo deporte en socio");
}

#[test]
fn new_socio_descarta_deporte_fuera_de_b() {
    let a = Socio::new("a".to_string(), 1, CategoriasSocios::A, Some(Deporte::Tenis));
    let c = Socio::new("c".to_string(), 3, CategoriasSocios::C, Some(Deporte::Rugby));
    let b = Socio::new("b".to_string(), 2, CategoriasSocios::B, Some(Deporte::Rugby));
    assert_eq!(a.deporte, None);
    assert_eq!(c.deporte, None);
    assert_eq!(b.deporte, Some(Deporte::Rugby));
    assert_eq!(b.clone(), b);
}

#[test]
fn puede_practicar_segun_categoria_y_deporte() {
    let a = Socio::new("a".to_string(), 1, CategoriasSocios::A, None);
    let b = Socio::new("b".to_string(), 2, CategoriasSocios::B, Some(Deporte::Tenis));
    let c = Socio::new("c".to_string(), 3, CategoriasSocios::C, None);
    assert!(a.puede_practicar(Deporte::Tenis));
    assert!(a.puede_practicar(Deporte::Hockey));
    assert!(b.puede_practicar(Deporte::Tenis));
    assert!(!b.puede_practicar(Deporte::Hockey));
    assert!(!c.puede_practicar(Deporte::Tenis));
}

#[test]
fn get_apellido_y_nombre_test() {
    let ape_y_nom = "David Starsky".to_string();
    let dni = 30537974;
    let cat = CategoriasSocios::categoria_from_id(&2).unwrap();
    let deporte = Deporte::deporte_from_id(&Some(2)).unwrap();
    let socio = Socio::new(ape_y_nom.clone(), dni, cat.clone(), deporte.clone());

    assert_eq!(socio.get_apellido_y_nombre(), ape_y_nom, "Debio ser el mismo nombre");
}

#[test]
fn get_dni_test() {
    let ape_y_nom = "David Starsky".to_string();
    let dni = 30537974;
    let cat = CategoriasSocios::categoria_from_id(&2).unwrap();
    let deporte = Deporte::deporte_from_id(&Some(2)).unwrap();
    let socio = Socio::new(ape_y_nom.clone(), dni, cat.clone(), deporte.clone());

    assert_eq!(socio.get_dni(), dni, "Debio ser el mismo DNI");
}

#[test]
fn get_categoria_test() {
    let ape_y_nom = "David Starsky".to_string();
    let dni = 30537974;
    let cat = CategoriasSocios::categoria_from_id(&2).unwrap();
    let deporte = Deporte::deporte_from_id(&Some(2)).unwrap();
    let socio = Socio::new(ape_y_nom.clone(), dni, cat.clone(), deporte.clone());

    assert_eq!(socio.get_categoria(), cat, "Debio ser la misma categoria");
}

#[test]
fn get_deporte_cat_test() {
    let ape_y_nom = "David Starsky".to_string();
    let dni = 30537974;
    let cat = CategoriasSocios::categoria_from_id(&2).unwrap();
    let deporte = Deporte::deporte_from_id(&Some(2)).unwrap();
    let socio = Socio::new(ape_y_nom.clone(), dni, cat.clone(), deporte.clone());

    assert_eq!(socio.get_deporte(), deporte, "Debio ser el mismo deporte");
}

#[test]
fn conversion_fechas_test() {
    assert_eq!(0.from_segundos(), 0);
    assert_eq!(1.from_segundos(), 1000);
    assert_eq!(10.from_segundos(), 10000);
    assert_eq!(0.from_horas(), 0);
    assert_eq!(1.from_horas(), 3600000);
    assert_eq!(10.from_horas(), 36000000);
    assert_eq!(0.from_dias(), 0);
    assert_eq!(1.from_dias(), 86400000);
    assert_eq!(10.from_dias(), 864000000);
    assert_eq!(0.from_semanas(), 0);
    assert_eq!(1.from_semanas(), 604800000);
    assert_eq!(10.from_semanas(), 6048000000);
    assert_eq!(0.from_meses(), 0);
    assert_eq!(1.from_meses(), 2629743000);
    assert_eq!(10.from_meses(), 26297430000);
    assert_eq!(0.from_anios(), 0);
    assert_eq!(1.from_anios(), 31556926000);
    assert_eq!(10.from_anios(), 315569260000);
}

#[test]
fn periodos_de_diez_y_treinta_dias() {
    assert_eq!(club_sem_rust::fechas::DIEZ_DIAS, 10.from_dias());
    assert_eq!(club_sem_rust::fechas::TREINTA_DIAS, 30.from_dias());
    assert_eq!(club_sem_rust::fechas::TREINTA_DIAS, 2592000000);
}

#[test]
fn deporte_from_id_test() {
    assert_eq!(Deporte::deporte_from_id(&Some(1)), Ok(Some(Deporte::Futbol)));
    assert_eq!(Deporte::deporte_from_id(&Some(2)), Ok(Some(Deporte::Basquet)));
    assert_eq!(Deporte::deporte_from_id(&Some(3)), Ok(Some(Deporte::Rugby)));
    assert_eq!(Deporte::deporte_from_id(&Some(4)), Ok(Some(Deporte::Hockey)));
    assert_eq!(Deporte::deporte_from_id(&Some(5)), Ok(Some(Deporte::Natacion)));
    assert_eq!(Deporte::deporte_from_id(&Some(6)), Ok(Some(Deporte::Tenis)));
    assert_eq!(Deporte::deporte_from_id(&Some(7)), Ok(Some(Deporte::Paddle)));
    assert_eq!(Deporte::deporte_from_id(&Some(8)), Ok(Some(Deporte::Gimnasio)));
    assert_eq!(Deporte::deporte_from_id(&None), Ok(None));
}

#[test]
#[should_panic]
fn deporte_from_id_incorrecta_test() {
    let _dep = Deporte::deporte_from_id(&Some(10)).unwrap();
}

#[test]
fn deporte_from_id_distingue_codigo_invalido_de_sin_codigo() {
    assert_eq!(Deporte::deporte_from_id(&Some(0)), Err(ErrorClub::InvalidActivity));
    assert_eq!(Deporte::deporte_from_id(&Some(9)), Err(ErrorClub::InvalidActivity));
    assert_eq!(Deporte::deporte_from_id(&Some(10)), Err(ErrorClub::InvalidActivity));
    assert_eq!(Deporte::deporte_from_id(&Some(u32::MAX)), Err(ErrorClub::InvalidActivity));
    assert_ne!(Deporte::deporte_from_id(&Some(10)), Deporte::deporte_from_id(&None));
}

#[test]
fn deporte_de_codigo_nombra_o_rechaza() {
    assert_eq!(Deporte::deporte_de_codigo(6), Ok(Deporte::Tenis));
    assert_eq!(Deporte::deporte_de_codigo(8), Ok(Deporte::Gimnasio));
    assert_eq!(Deporte::deporte_de_codigo(0), Err(ErrorClub::InvalidActivity));
    assert_eq!(Deporte::deporte_de_codigo(9), Err(ErrorClub::InvalidActivity));
}
