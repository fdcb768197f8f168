use parachain_template_node::components::{ParaId, RelayChainNodeId};
use parachain_template_node::inherents::{
    import_inherents, import_inherents_at, instant_seal_inherents, instant_seal_inherents_at,
    parachain_inherents, parachain_inherents_at, ImportInherents, InherentsError,
    InstantSealInherents, MockValidationData, ParachainInherentQuery, ParachainInherents,
};
use std::time::{Duration, SystemTime, UNIX_EPOCH};

fn millis_now() -> u64 {
    let since: Duration = SystemTime::now().duration_since(UNIX_EPOCH).unwrap();
    since.as_millis() as u64
}

#[test]
fn imported_blocks_are_checked_against_the_current_time() {
    let before = millis_now();
    let (time,) = import_inherents().unwrap();
    let after = millis_now();
    let millis = time.timestamp().as_millis();
    assert!(before <= millis && millis <= after);
}

#[test]
fn imported_blocks_are_checked_against_the_time_alone() {
    assert_eq!(import_inherents_at(5u64), Ok((5,)));
}

#[test]
fn a_collator_puts_time_relay_chain_and_author_into_a_block() {
    assert_eq!(parachain_inherents_at(5u64, Some("relay"), "alice"), Ok((5, "relay", "alice")));
}

#[test]
fn without_the_relay_chain_there_are_no_inherents() {
    let none: Option<&str> = None;
    assert_eq!(
        parachain_inherents_at(5u64, none, "alice"),
        Err(InherentsError::NoParachainInherent)
    );
    match parachain_inherents(none, "alice") {
        Err(error) => assert_eq!(error.message(), "Failed to create parachain inherent"),
        Ok(_) => panic!("inherents without the relay chain"),
    }
}

#[test]
fn a_collator_reads_the_clock() {
    let before = millis_now();
    let (time, relay, author) = parachain_inherents(Some(7u8), "alice").unwrap();
    let after = millis_now();
    let millis = time.timestamp().as_millis();
    assert!(before <= millis && millis <= after);
    assert_eq!((relay, author), (7, "alice"));
}

#[test]
fn a_node_that_stands_alone_mocks_the_relay_chain() {
    let still = MockValidationData {
        current_para_block: 0,
        relay_offset: 0,
        relay_blocks_per_para_block: 0,
    };
    assert_eq!(instant_seal_inherents_at(5u64), Ok((5, still)));
    let before = millis_now();
    let (time, mock) = instant_seal_inherents().unwrap();
    let after = millis_now();
    let millis = time.timestamp().as_millis();
    assert!(before <= millis && millis <= after);
    assert_eq!(mock, still);
    assert_eq!(mock, MockValidationData::new());
}

#[test]
fn every_imported_block_is_checked_against_the_time_alone() {
    for (block, extra) in [("genesis", 0u8), ("best", 1)] {
        let before = millis_now();
        let (time,) = ImportInherents.create(block, extra).unwrap();
        let after = millis_now();
        let millis = time.timestamp().as_millis();
        assert!(before <= millis && millis <= after);
    }
}

fn collator_inherents() -> ParachainInherents {
    ParachainInherents {
        relay_chain_client: RelayChainNodeId(16),
        relay_chain_backend: RelayChainNodeId(17),
        para_id: ParaId(2000),
    }
}

#[test]
fn the_relay_chain_is_asked_of_the_collators_own_parachain() {
    assert_eq!(
        collator_inherents().query("relay parent", [1u8, 2]),
        ParachainInherentQuery {
            relay_parent: "relay parent",
            relay_chain_client: RelayChainNodeId(16),
            relay_chain_backend: RelayChainNodeId(17),
            validation_data: [1u8, 2],
            para_id: ParaId(2000),
        }
    );
}

#[test]
fn every_collated_block_carries_time_answer_and_author() {
    let before = millis_now();
    let (time, relay, author) =
        collator_inherents().create("best", Some("answer"), "alice").unwrap();
    let after = millis_now();
    let millis = time.timestamp().as_millis();
    assert!(before <= millis && millis <= after);
    assert_eq!((relay, author), ("answer", "alice"));
}

#[test]
fn no_block_is_collated_without_an_answer() {
    let none: Option<u8> = None;
    match collator_inherents().create("best", none, "alice") {
        Err(error) => {
            assert_eq!(error, InherentsError::NoParachainInherent);
            assert_eq!(error.message(), "Failed to create parachain inherent");
        }
        Ok(_) => panic!("inherents without the relay chain"),
    }
}

#[test]
fn every_sealed_block_carries_the_time_and_the_mock() {
    for (block, extra) in [("genesis", ()), ("best", ())] {
        let before = millis_now();
        let (time, mock) = InstantSealInherents.create(block, extra).unwrap();
        let after = millis_now();
        let millis = time.timestamp().as_millis();
        assert!(before <= millis && millis <= after);
        assert_eq!(mock, MockValidationData::new());
        assert_eq!(mock.current_para_block, 0);
        assert_eq!(mock.relay_offset, 0);
        assert_eq!(mock.relay_blocks_per_para_block, 0);
    }
}
