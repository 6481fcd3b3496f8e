use ext2lower::err::DstPathFsError;
use ext2lower::err::PathFsError;
use ext2lower::err::SrcPathFsError;
use ext2lower::renamer::DstProbe;
use ext2lower::renamer::RenameMode;
use ext2lower::renamer::Renamer;
use ext2lower::renamer::SrcProbe;

#[test]
fn resolve_picks_the_mode() {
    assert_eq!(Renamer::resolve(true).mode, RenameMode::Execute);
    assert_eq!(Renamer::resolve(false).mode, RenameMode::Simulate);
}

#[test]
fn inaccessible_source_is_an_access_error() {
    let renamer = Renamer::resolve(false);
    let r = renamer.check_src(SrcProbe::Error(String::from("permission denied")));
    assert_eq!(
        r,
        Err(SrcPathFsError::Access(String::from("permission denied")))
    );
}

#[test]
fn non_regular_source_is_rejected() {
    let renamer = Renamer::resolve(true);
    let r = renamer.check_src(SrcProbe::Meta { is_file: false });
    assert_eq!(r, Err(SrcPathFsError::NotARegularFile));
}

#[test]
fn regular_source_passes() {
    let renamer = Renamer::resolve(true);
    assert_eq!(renamer.check_src(SrcProbe::Meta { is_file: true }), Ok(()));
}

#[test]
fn existing_destination_is_rejected() {
    let renamer = Renamer::resolve(true);
    let r = renamer.check_dst(DstProbe::Exists(true));
    assert_eq!(r, Err(DstPathFsError::Exists));
}

#[test]
fn failed_existence_check_is_reported() {
    let renamer = Renamer::resolve(false);
    let r = renamer.check_dst(DstProbe::Error(String::from("loop in links")));
    assert_eq!(
        r,
        Err(DstPathFsError::ExistenceCheck(String::from("loop in links")))
    );
}

#[test]
fn absent_destination_passes() {
    let renamer = Renamer::resolve(false);
    assert_eq!(renamer.check_dst(DstProbe::Exists(false)), Ok(()));
}

#[test]
fn source_check_comes_first() {
    let renamer = Renamer::resolve(true);
    let r = renamer.check(SrcProbe::Meta { is_file: false }, DstProbe::Exists(true));
    assert_eq!(r, Err(PathFsError::Src(SrcPathFsError::NotARegularFile)));
}

#[test]
fn execute_mode_directs_the_rename() {
    let renamer = Renamer::resolve(true);
    let r = renamer.apply(SrcProbe::Meta { is_file: true }, DstProbe::Exists(false));
    assert_eq!(r, Ok(true));
}

#[test]
fn simulate_mode_never_directs_the_rename() {
    let renamer = Renamer::resolve(false);
    let probes = vec![
        (SrcProbe::Meta { is_file: true }, DstProbe::Exists(false)),
        (SrcProbe::Meta { is_file: true }, DstProbe::Exists(true)),
        (SrcProbe::Meta { is_file: false }, DstProbe::Exists(false)),
        (SrcProbe::Error(String::from("gone")), DstProbe::Exists(false)),
    ];
    for (src, dst) in probes {
        assert_ne!(renamer.apply(src, dst), Ok(true));
    }
}

#[test]
fn no_mode_renames_onto_an_existing_destination() {
    for execute in vec![true, false] {
        let renamer = Renamer::resolve(execute);
        let r = renamer.apply(SrcProbe::Meta { is_file: true }, DstProbe::Exists(true));
        assert_eq!(r, Err(PathFsError::Dst(DstPathFsError::Exists)));
    }
}
