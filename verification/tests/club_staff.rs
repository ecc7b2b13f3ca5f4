use club_sem_rust::{AccountId, ClubSemRust};

fn club_inicial() -> (ClubSemRust, AccountId) {
    let owner = AccountId::from([0x1; 32]);
    (ClubSemRust::new(owner, 5000, 3000, 2000, 1000, 3), owner)
}

#[test]
fn set_owner_correcto_test() {
    let (mut club, owner) = club_inicial();
    let nuevo_owner = AccountId::from([0x2; 32]);
    club.set_owner(owner, nuevo_owner).unwrap();

    assert_eq!(
        club.owner, nuevo_owner,
        "Debio haber cambiado el owner, ya que el llamado lo realiza el owner"
    );
}

#[test]
#[should_panic]
fn set_owner_incorrecto_test() {
    let (mut club, _owner) = club_inicial();
    let no_permitido = AccountId::from([0x2; 32]);
    club.set_owner(no_permitido, no_permitido).unwrap();
}

#[test]
fn agregar_staff_correcto_test() {
    let (mut club, owner) = club_inicial();
    assert_eq!(
        club.agregar_staff(owner, AccountId::from([0x2; 32])).unwrap(),
        true,
        "Debio agregar al staff sin problemas"
    );
}

#[test]
#[should_panic]
fn agregar_staff_existente_test() {
    let (mut club, owner) = club_inicial();
    let staff = AccountId::from([0x2; 32]);
    club.agregar_staff(owner, staff).unwrap();
    club.agregar_staff(owner, staff).unwrap();
}

#[test]
#[should_panic]
fn agregar_staff_incorrecto_test() {
    let (mut club, _owner) = club_inicial();
    let staff = AccountId::from([0x2; 32]);
    club.agregar_staff(staff, staff).unwrap();
}

#[test]
fn es_staff_correcto_test() {
    let (mut club, owner) = club_inicial();
    let staff = AccountId::from([0x2; 32]);
    club.agregar_staff(owner, staff).unwrap();
    assert_eq!(club.es_staff(staff), true, "Debio ser true, ya que el staff se ha agregado");
}

#[test]
fn es_staff_incorrecto_test() {
    let (mut club, owner) = club_inicial();
    club.agregar_staff(owner, AccountId::from([0x2; 32])).unwrap();
    assert_eq!(club.es_staff(owner), false, "Debio ser false, ya que el caller no es staff");
}

#[test]
fn verificar_permisos_owner_test() {
    let (mut club, owner) = club_inicial();
    club.agregar_staff(owner, AccountId::from([0x2; 32])).unwrap();
    assert_eq!(club.verificar_permisos(owner), true, "Debio ser verdadero");
}

#[test]
fn verificar_permisos_staff_test() {
    let (mut club, owner) = club_inicial();
    let staff = AccountId::from([0x2; 32]);
    club.agregar_staff(owner, staff).unwrap();
    assert_eq!(club.verificar_permisos(staff), true, "Debio ser verdadero");
}

#[test]
fn verificar_permisos_no_permitido_con_politica_desactivada_test() {
    let (mut club, owner) = club_inicial();
    club.toggle_politica_autorizacion(owner).unwrap();
    assert_eq!(
        club.verificar_permisos(AccountId::from([0x2; 32])),
        true,
        "Debio ser verdadero, ya que desactive la politica"
    );
}

#[test]
fn verificar_permisos_no_permitido_con_politica_activada_test() {
    let (club, _owner) = club_inicial();
    assert_eq!(
        club.verificar_permisos(AccountId::from([0x2; 32])),
        false,
        "Debio ser falso, ya que la politica está activada"
    );
}

#[test]
fn actualizar_pagos_consecutivos_para_descuento_owner_correcto_test() {
    let (mut club, owner) = club_inicial();
    club.agregar_staff(owner, AccountId::from([0x2; 32])).unwrap();
    club.actualizar_pagos_consecutivos_para_descuento(owner, 2).unwrap();
    assert_eq!(
        club.costos.pagos_consecutivos_para_beneficio, 2,
        "Debió actualizarse, ya que se llamo al metodo con el owner"
    );
}

#[test]
fn actualizar_pagos_consecutivos_para_descuento_staff_correcto_test() {
    let (mut club, owner) = club_inicial();
    club.agregar_staff(owner, AccountId::from([0x2; 32])).unwrap();
    let staff = AccountId::from([0x2; 32]);
    club.actualizar_pagos_consecutivos_para_descuento(staff, 2).unwrap();
    assert_eq!(
        club.costos.pagos_consecutivos_para_beneficio, 2,
        "Debió actualizarse, ya que se llamo al metodo con un staff"
    );
}

#[test]
#[should_panic]
fn actualizar_pagos_consecutivos_para_descuento_sin_permisos_test() {
    let (mut club, _owner) = club_inicial();
    let no_permitido = AccountId::from([0x2; 32]);
    club.actualizar_pagos_consecutivos_para_descuento(no_permitido, 3).unwrap();
}

#[test]
#[should_panic]
fn realizar_pago_llamado_sin_permisos_test() {
    let (mut club, _owner) = club_inicial();
    let no_permitido = AccountId::from([0x2; 32]);
    club.realizar_pago(no_permitido, 0, 30, 5000).unwrap();
}

#[test]
#[should_panic]
fn realizar_pago_socio_inexistente_test() {
    let (mut club, owner) = club_inicial();
    club.realizar_pago(owner, 0, 30, 5000).unwrap();
}

#[test]
fn realizar_pago_correcto_test() {
    let (mut club, owner) = club_inicial();
    let ape_y_nom = "David Starsky".to_string();
    let dni = 30537974;
    club.registrar_socio(owner, 0, dni, ape_y_nom, 2, Some(2)).unwrap();

    let pago = club.realizar_pago(owner, 0, dni, 3000).unwrap();

    assert_eq!(
        pago.bonificado, false,
        "No debio ser bonificado, ya que es el primer pago realizado por el socio"
    );
    assert_eq!(pago.dni, dni, "Debio ser el mismo DNI");
    assert_eq!(pago.monto, 3000, "Debio ser el mismo monto");
    assert_ne!(pago.fecha_pago, None, "No debio ser None, ya que deberia contener una fecha de pago");
}

#[test]
#[should_panic]
fn realizar_pago_sin_permisos_test() {
    let (mut club, owner) = club_inicial();
    let ape_y_nom = "David Starsky".to_string();
    let dni = 30537974;
    club.registrar_socio(owner, 0, dni, ape_y_nom, 2, Some(2)).unwrap();
    club.realizar_pago(owner, 0, dni, 3000).unwrap();
    club.realizar_pago(owner, 0, dni, 3000).unwrap();
}

#[test]
#[should_panic]
fn consulta_de_pagos_sin_permisos_test() {
    let (club, _owner) = club_inicial();
    let no_permitido = AccountId::from([0x2; 32]);
    club.consulta_de_pagos(no_permitido, None).unwrap();
}

#[test]
#[should_panic]
fn consulta_de_pagos_dni_no_existente_test() {
    let (club, owner) = club_inicial();
    club.consulta_de_pagos(owner, Some(30)).unwrap();
}
