use grelsolar::integration::solarlog::{InverterStatus, StatusClass, UnknownStatus};

#[test]
fn test_inverter_status_is_shutdown() {
    let shutdown_statuses = [
        InverterStatus::ShutdownFault,
        InverterStatus::ShutdownCommand,
        InverterStatus::ShutdownOvgr,
        InverterStatus::ShutdownCommDisconnected,
        InverterStatus::ShutdownPowerLimit,
        InverterStatus::ShutdownStartManually,
        InverterStatus::ShutdownDcSwitchOff,
    ];
    for status in shutdown_statuses.iter() {
        assert!(status.is_shutdown());
    }
    let not_shutdown_statuses = [
        InverterStatus::IdleInitializing,
        InverterStatus::OnGrid,
        InverterStatus::SpotCheck,
    ];
    for status in not_shutdown_statuses.iter() {
        assert!(!status.is_shutdown());
    }
}

#[test]
fn test_inverter_status_is_idle() {
    let idle_statuses = [
        InverterStatus::IdleInitializing,
        InverterStatus::IdleDetectingIso,
        InverterStatus::IdleDetectingIrradiation,
        InverterStatus::IdleGridDetecting,
        InverterStatus::IdleNoIrradiation,
    ];
    for status in idle_statuses.iter() {
        assert!(status.is_idle());
    }
    let not_idle_statuses = [
        InverterStatus::OnGrid,
        InverterStatus::ShutdownFault,
        InverterStatus::SpotCheck,
    ];
    for status in not_idle_statuses.iter() {
        assert!(!status.is_idle());
    }
}

#[test]
fn test_inverter_status_is_on_grid() {
    let on_grid_statuses = [
        InverterStatus::OnGrid,
        InverterStatus::OnGridPowerLimit,
        InverterStatus::OnGridSelfDerating,
    ];
    for status in on_grid_statuses.iter() {
        assert!(status.is_on_grid());
    }
    let not_on_grid_statuses = [
        InverterStatus::IdleInitializing,
        InverterStatus::ShutdownFault,
        InverterStatus::SpotCheck,
    ];
    for status in not_on_grid_statuses.iter() {
        assert!(!status.is_on_grid());
    }
}

#[test]
fn test_inverter_status_from_str_and_display() {
    let pairs = [
        ("Idle Initializing", InverterStatus::IdleInitializing),
        ("On-grid", InverterStatus::OnGrid),
        ("Shutdown Fault", InverterStatus::ShutdownFault),
        ("Spot-check", InverterStatus::SpotCheck),
        ("AFCI self-check", InverterStatus::AfciSelfCheck),
    ];
    for (s, expected) in pairs.iter() {
        let parsed = InverterStatus::from_str(s).unwrap();
        assert_eq!(&parsed, expected);
        assert_eq!(parsed.to_string(), *s);
    }
}

#[test]
fn test_inverter_status_from_str_invalid() {
    assert!(InverterStatus::from_str("Not a status").is_err());
}

#[test]
fn every_status_reads_back_from_its_text() {
    let all = InverterStatus::all();
    assert_eq!(all.len(), 24);
    for status in all.iter() {
        assert_eq!(InverterStatus::from_str(status.label()), Ok(*status));
        assert_eq!(status.to_string(), status.label());
    }
    for (i, a) in all.iter().enumerate() {
        for b in all.iter().skip(i + 1) {
            assert_ne!(a, b);
            assert_ne!(a.label(), b.label());
        }
    }
}

#[test]
fn status_texts_are_read_letter_for_letter() {
    assert_eq!(
        InverterStatus::from_str("Idle  Detecting ISO"),
        Ok(InverterStatus::IdleDetectingIso)
    );
    assert_eq!(InverterStatus::from_str("Idle Detecting ISO"), Err(UnknownStatus));
    assert_eq!(InverterStatus::from_str("on-grid"), Err(UnknownStatus));
    assert_eq!(InverterStatus::from_str("On-grid "), Err(UnknownStatus));
    assert_eq!(InverterStatus::from_str(""), Err(UnknownStatus));
    assert_eq!(
        InverterStatus::from_str("Grid dispatch cos(Phi)-P curve"),
        Ok(InverterStatus::GridDispatchCosPhiPCurve)
    );
}

#[test]
fn every_status_is_of_one_kind() {
    let mut counts = [0usize; 5];
    for status in InverterStatus::all().iter() {
        let class = status.classify();
        assert_eq!(status.is_idle(), class == StatusClass::Idle);
        assert_eq!(status.is_on_grid(), class == StatusClass::OnGrid);
        assert_eq!(status.is_shutdown(), class == StatusClass::Shutdown);
        match class {
            StatusClass::Idle => counts[0] += 1,
            StatusClass::Starting => counts[1] += 1,
            StatusClass::OnGrid => counts[2] += 1,
            StatusClass::Shutdown => counts[3] += 1,
            StatusClass::Diagnostic => counts[4] += 1,
        }
    }
    assert_eq!(counts, [5, 1, 3, 7, 8]);
    assert_eq!(InverterStatus::Starting.classify(), StatusClass::Starting);
    assert_eq!(InverterStatus::GridDispatchQuCurve.classify(), StatusClass::Diagnostic);
    assert_eq!(InverterStatus::IvScanning.classify(), StatusClass::Diagnostic);
}
