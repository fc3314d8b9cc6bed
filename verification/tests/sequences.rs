use partitions::AddSub;
use partitions::AddSubCounter;
use partitions::AllIntegers;
use partitions::DifferencePartitionSequence;
use partitions::OddIntegers;
use partitions::PartitionSequence;

#[test]
fn addsub() {
    let mut asc = AddSubCounter::new();
    let expect = [
        AddSub::Add,
        AddSub::Add,
        AddSub::Sub,
        AddSub::Sub,
        AddSub::Add,
        AddSub::Add,
        AddSub::Sub,
        AddSub::Sub,
        AddSub::Add,
        AddSub::Add,
    ];

    for e in expect.iter() {
        let got = asc.next();
        assert_eq!(got, *e);
    }
}

#[test]
fn all_integers() {
    let mut all_int = AllIntegers::new();
    let range = 1i64..100;

    for r in range {
        let a = all_int.next();
        assert_eq!(r, a);
    }
}

#[test]
fn odd_integers() {
    let mut odd_int = OddIntegers::new();
    let expect = (1i64..100).step_by(2);

    for a in expect {
        let r = odd_int.next();
        assert_eq!(r, a);
    }
}

#[test]
fn dps() {
    let mut dps = DifferencePartitionSequence::new();
    let expect = [1i64, 3, 2, 5, 3, 7, 4, 9, 5, 11, 6, 13, 7].iter();

    for a in expect {
        let r = dps.next();
        assert_eq!(&r, a);
    }
}

#[test]
fn ps() {
    let mut dps = PartitionSequence::new();
    let expect = [1i64, 2, 5, 7, 12, 15, 22, 26, 35, 40, 51, 57, 70].iter();

    for a in expect {
        let r = dps.next();
        println!("got: {:?} expect: {:?}", r, a);
    }
}
