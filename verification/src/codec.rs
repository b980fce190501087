//! The type registries of the P-Chain codec and of Warp payloads: each
//! registered type name and its type ID.
use vstd::prelude::*;

verus! {

/// The codec version that prefixes every encoding.
pub const VERSION: u16 = 0;

/// The type ID registered for `name` with the P-Chain codec, if any.
pub open spec fn p_type_id_of(name: Seq<char>) -> Option<u32> {
    if name == "platformvm.ProposalBlock"@ {
        Some(0u32)
    } else if name == "platformvm.AbortBlock"@ {
        Some(1u32)
    } else if name == "platformvm.CommitBlock"@ {
        Some(2u32)
    } else if name == "platformvm.StandardBlock"@ {
        Some(3u32)
    } else if name == "platformvm.AtomicBlock"@ {
        Some(4u32)
    } else if name == "secp256k1fx.TransferInput"@ {
        Some(5u32)
    } else if name == "secp256k1fx.MintOutput"@ {
        Some(6u32)
    } else if name == "secp256k1fx.TransferOutput"@ {
        Some(7u32)
    } else if name == "secp256k1fx.MintOperation"@ {
        Some(8u32)
    } else if name == "secp256k1fx.Credential"@ {
        Some(9u32)
    } else if name == "secp256k1fx.Input"@ {
        Some(10u32)
    } else if name == "secp256k1fx.OutputOwners"@ {
        Some(11u32)
    } else if name == "platformvm.AddValidatorTx"@ {
        Some(12u32)
    } else if name == "platformvm.AddSubnetValidatorTx"@ {
        Some(13u32)
    } else if name == "platformvm.AddDelegatorTx"@ {
        Some(14u32)
    } else if name == "platformvm.CreateChainTx"@ {
        Some(15u32)
    } else if name == "platformvm.CreateSubnetTx"@ {
        Some(16u32)
    } else if name == "platformvm.ImportTx"@ {
        Some(17u32)
    } else if name == "platformvm.ExportTx"@ {
        Some(18u32)
    } else if name == "platformvm.AdvanceTimeTx"@ {
        Some(19u32)
    } else if name == "platformvm.RewardValidatorTx"@ {
        Some(20u32)
    } else if name == "stakeable.LockIn"@ {
        Some(21u32)
    } else if name == "stakeable.LockOut"@ {
        Some(22u32)
    } else if name == "platformvm.RemoveSubnetValidatorTx"@ {
        Some(23u32)
    } else if name == "platformvm.TransformSubnetTx"@ {
        Some(24u32)
    } else if name == "platformvm.AddPermissionlessValidatorTx"@ {
        Some(25u32)
    } else if name == "platformvm.AddPermissionlessDelegatorTx"@ {
        Some(26u32)
    } else if name == "signer.Empty"@ {
        Some(27u32)
    } else if name == "signer.ProofOfPossession"@ {
        Some(28u32)
    } else if name == "platformvm.TransferSubnetOwnershipTx"@ {
        Some(29u32)
    } else if name == "platformvm.BaseTx"@ {
        Some(30u32)
    } else if name == "platformvm.ConvertSubnetToL1Tx"@ {
        Some(31u32)
    } else if name == "platformvm.RegisterL1ValidatorTx"@ {
        Some(32u32)
    } else if name == "platformvm.SetL1ValidatorWeightTx"@ {
        Some(33u32)
    } else if name == "platformvm.IncreaseL1ValidatorBalanceTx"@ {
        Some(34u32)
    } else if name == "platformvm.DisableL1ValidatorTx"@ {
        Some(35u32)
    } else {
        None
    }
}

/// Looks `name` up in the P-Chain codec's registry.
pub fn p_type_id(name: &str) -> (id: Option<u32>)
    ensures
        id == p_type_id_of(name@),
{
    let n = name.to_owned();
    if n == "platformvm.ProposalBlock".to_owned() {
        Some(0)
    } else if n == "platformvm.AbortBlock".to_owned() {
        Some(1)
    } else if n == "platformvm.CommitBlock".to_owned() {
        Some(2)
    } else if n == "platformvm.StandardBlock".to_owned() {
        Some(3)
    } else if n == "platformvm.AtomicBlock".to_owned() {
        Some(4)
    } else if n == "secp256k1fx.TransferInput".to_owned() {
        Some(5)
    } else if n == "secp256k1fx.MintOutput".to_owned() {
        Some(6)
    } else if n == "secp256k1fx.TransferOutput".to_owned() {
        Some(7)
    } else if n == "secp256k1fx.MintOperation".to_owned() {
        Some(8)
    } else if n == "secp256k1fx.Credential".to_owned() {
        Some(9)
    } else if n == "secp256k1fx.Input".to_owned() {
        Some(10)
    } else if n == "secp256k1fx.OutputOwners".to_owned() {
        Some(11)
    } else if n == "platformvm.AddValidatorTx".to_owned() {
        Some(12)
    } else if n == "platformvm.AddSubnetValidatorTx".to_owned() {
        Some(13)
    } else if n == "platformvm.AddDelegatorTx".to_owned() {
        Some(14)
    } else if n == "platformvm.CreateChainTx".to_owned() {
        Some(15)
    } else if n == "platformvm.CreateSubnetTx".to_owned() {
        Some(16)
    } else if n == "platformvm.ImportTx".to_owned() {
        Some(17)
    } else if n == "platformvm.ExportTx".to_owned() {
        Some(18)
    } else if n == "platformvm.AdvanceTimeTx".to_owned() {
        Some(19)
    } else if n == "platformvm.RewardValidatorTx".to_owned() {
        Some(20)
    } else if n == "stakeable.LockIn".to_owned() {
        Some(21)
    } else if n == "stakeable.LockOut".to_owned() {
        Some(22)
    } else if n == "platformvm.RemoveSubnetValidatorTx".to_owned() {
        Some(23)
    } else if n == "platformvm.TransformSubnetTx".to_owned() {
        Some(24)
    } else if n == "platformvm.AddPermissionlessValidatorTx".to_owned() {
        Some(25)
    } else if n == "platformvm.AddPermissionlessDelegatorTx".to_owned() {
        Some(26)
    } else if n == "signer.Empty".to_owned() {
        Some(27)
    } else if n == "signer.ProofOfPossession".to_owned() {
        Some(28)
    } else if n == "platformvm.TransferSubnetOwnershipTx".to_owned() {
        Some(29)
    } else if n == "platformvm.BaseTx".to_owned() {
        Some(30)
    } else if n == "platformvm.ConvertSubnetToL1Tx".to_owned() {
        Some(31)
    } else if n == "platformvm.RegisterL1ValidatorTx".to_owned() {
        Some(32)
    } else if n == "platformvm.SetL1ValidatorWeightTx".to_owned() {
        Some(33)
    } else if n == "platformvm.IncreaseL1ValidatorBalanceTx".to_owned() {
        Some(34)
    } else if n == "platformvm.DisableL1ValidatorTx".to_owned() {
        Some(35)
    } else {
        None
    }
}

/// The type ID registered for `name` with the Warp payload codec, if any.
pub open spec fn warp_payload_type_id_of(name: Seq<char>) -> Option<u32> {
    if name == "warp.SubnetToL1ConversionMessage"@ {
        Some(0u32)
    } else if name == "warp.RegisterL1ValidatorMessage"@ {
        Some(1u32)
    } else if name == "warp.L1ValidatorRegistrationMessage"@ {
        Some(2u32)
    } else if name == "warp.L1ValidatorWeightMessage"@ {
        Some(3u32)
    } else {
        None
    }
}

/// Looks `name` up in the Warp payload codec's registry.
pub fn warp_payload_type_id(name: &str) -> (id: Option<u32>)
    ensures
        id == warp_payload_type_id_of(name@),
{
    let n = name.to_owned();
    if n == "warp.SubnetToL1ConversionMessage".to_owned() {
        Some(0)
    } else if n == "warp.RegisterL1ValidatorMessage".to_owned() {
        Some(1)
    } else if n == "warp.L1ValidatorRegistrationMessage".to_owned() {
        Some(2)
    } else if n == "warp.L1ValidatorWeightMessage".to_owned() {
        Some(3)
    } else {
        None
    }
}

/// `secp256k1fx.Credential` is registered as 9.
pub proof fn lemma_secp256k1fx_credential_registered()
    ensures
        p_type_id_of("secp256k1fx.Credential"@) == Some(9u32),
{
    reveal_strlit("secp256k1fx.Credential");
    reveal_strlit("platformvm.ProposalBlock");
    assert("platformvm.ProposalBlock"@.len() != "secp256k1fx.Credential"@.len());
    reveal_strlit("platformvm.AbortBlock");
    assert("platformvm.AbortBlock"@.len() != "secp256k1fx.Credential"@.len());
    reveal_strlit("platformvm.CommitBlock");
    assert("platformvm.CommitBlock"@[0] != "secp256k1fx.Credential"@[0]);
    reveal_strlit("platformvm.StandardBlock");
    assert("platformvm.StandardBlock"@.len() != "secp256k1fx.Credential"@.len());
    reveal_strlit("platformvm.AtomicBlock");
    assert("platformvm.AtomicBlock"@[0] != "secp256k1fx.Credential"@[0]);
    reveal_strlit("secp256k1fx.TransferInput");
    assert("secp256k1fx.TransferInput"@.len() != "secp256k1fx.Credential"@.len());
    reveal_strlit("secp256k1fx.MintOutput");
    assert("secp256k1fx.MintOutput"@[12] != "secp256k1fx.Credential"@[12]);
    reveal_strlit("secp256k1fx.TransferOutput");
    assert("secp256k1fx.TransferOutput"@.len() != "secp256k1fx.Credential"@.len());
    reveal_strlit("secp256k1fx.MintOperation");
    assert("secp256k1fx.MintOperation"@.len() != "secp256k1fx.Credential"@.len());
}

/// `secp256k1fx.Input` is registered as 10.
pub proof fn lemma_secp256k1fx_input_registered()
    ensures
        p_type_id_of("secp256k1fx.Input"@) == Some(10u32),
{
    reveal_strlit("secp256k1fx.Input");
    reveal_strlit("platformvm.ProposalBlock");
    assert("platformvm.ProposalBlock"@.len() != "secp256k1fx.Input"@.len());
    reveal_strlit("platformvm.AbortBlock");
    assert("platformvm.AbortBlock"@.len() != "secp256k1fx.Input"@.len());
    reveal_strlit("platformvm.CommitBlock");
    assert("platformvm.CommitBlock"@.len() != "secp256k1fx.Input"@.len());
    reveal_strlit("platformvm.StandardBlock");
    assert("platformvm.StandardBlock"@.len() != "secp256k1fx.Input"@.len());
    reveal_strlit("platformvm.AtomicBlock");
    assert("platformvm.AtomicBlock"@.len() != "secp256k1fx.Input"@.len());
    reveal_strlit("secp256k1fx.TransferInput");
    assert("secp256k1fx.TransferInput"@.len() != "secp256k1fx.Input"@.len());
    reveal_strlit("secp256k1fx.MintOutput");
    assert("secp256k1fx.MintOutput"@.len() != "secp256k1fx.Input"@.len());
    reveal_strlit("secp256k1fx.TransferOutput");
    assert("secp256k1fx.TransferOutput"@.len() != "secp256k1fx.Input"@.len());
    reveal_strlit("secp256k1fx.MintOperation");
    assert("secp256k1fx.MintOperation"@.len() != "secp256k1fx.Input"@.len());
    reveal_strlit("secp256k1fx.Credential");
    assert("secp256k1fx.Credential"@.len() != "secp256k1fx.Input"@.len());
}

/// `platformvm.ConvertSubnetToL1Tx` is registered as 31.
pub proof fn lemma_convert_subnet_to_l1_tx_registered()
    ensures
        p_type_id_of("platformvm.ConvertSubnetToL1Tx"@) == Some(31u32),
{
    reveal_strlit("platformvm.ConvertSubnetToL1Tx");
    reveal_strlit("platformvm.ProposalBlock");
    assert("platformvm.ProposalBlock"@.len() != "platformvm.ConvertSubnetToL1Tx"@.len());
    reveal_strlit("platformvm.AbortBlock");
    assert("platformvm.AbortBlock"@.len() != "platformvm.ConvertSubnetToL1Tx"@.len());
    reveal_strlit("platformvm.CommitBlock");
    assert("platformvm.CommitBlock"@.len() != "platformvm.ConvertSubnetToL1Tx"@.len());
    reveal_strlit("platformvm.StandardBlock");
    assert("platformvm.StandardBlock"@.len() != "platformvm.ConvertSubnetToL1Tx"@.len());
    reveal_strlit("platformvm.AtomicBlock");
    assert("platformvm.AtomicBlock"@.len() != "platformvm.ConvertSubnetToL1Tx"@.len());
    reveal_strlit("secp256k1fx.TransferInput");
    assert("secp256k1fx.TransferInput"@.len() != "platformvm.ConvertSubnetToL1Tx"@.len());
    reveal_strlit("secp256k1fx.MintOutput");
    assert("secp256k1fx.MintOutput"@.len() != "platformvm.ConvertSubnetToL1Tx"@.len());
    reveal_strlit("secp256k1fx.TransferOutput");
    assert("secp256k1fx.TransferOutput"@.len() != "platformvm.ConvertSubnetToL1Tx"@.len());
    reveal_strlit("secp256k1fx.MintOperation");
    assert("secp256k1fx.MintOperation"@.len() != "platformvm.ConvertSubnetToL1Tx"@.len());
    reveal_strlit("secp256k1fx.Credential");
    assert("secp256k1fx.Credential"@.len() != "platformvm.ConvertSubnetToL1Tx"@.len());
    reveal_strlit("secp256k1fx.Input");
    assert("secp256k1fx.Input"@.len() != "platformvm.ConvertSubnetToL1Tx"@.len());
    reveal_strlit("secp256k1fx.OutputOwners");
    assert("secp256k1fx.OutputOwners"@.len() != "platformvm.ConvertSubnetToL1Tx"@.len());
    reveal_strlit("platformvm.AddValidatorTx");
    assert("platformvm.AddValidatorTx"@.len() != "platformvm.ConvertSubnetToL1Tx"@.len());
    reveal_strlit("platformvm.AddSubnetValidatorTx");
    assert("platformvm.AddSubnetValidatorTx"@.len() != "platformvm.ConvertSubnetToL1Tx"@.len());
    reveal_strlit("platformvm.AddDelegatorTx");
    assert("platformvm.AddDelegatorTx"@.len() != "platformvm.ConvertSubnetToL1Tx"@.len());
    reveal_strlit("platformvm.CreateChainTx");
    assert("platformvm.CreateChainTx"@.len() != "platformvm.ConvertSubnetToL1Tx"@.len());
    reveal_strlit("platformvm.CreateSubnetTx");
    assert("platformvm.CreateSubnetTx"@.len() != "platformvm.ConvertSubnetToL1Tx"@.len());
    reveal_strlit("platformvm.ImportTx");
    assert("platformvm.ImportTx"@.len() != "platformvm.ConvertSubnetToL1Tx"@.len());
    reveal_strlit("platformvm.ExportTx");
    assert("platformvm.ExportTx"@.len() != "platformvm.ConvertSubnetToL1Tx"@.len());
    reveal_strlit("platformvm.AdvanceTimeTx");
    assert("platformvm.AdvanceTimeTx"@.len() != "platformvm.ConvertSubnetToL1Tx"@.len());
    reveal_strlit("platformvm.RewardValidatorTx");
    assert("platformvm.RewardValidatorTx"@.len() != "platformvm.ConvertSubnetToL1Tx"@.len());
    reveal_strlit("stakeable.LockIn");
    assert("stakeable.LockIn"@.len() != "platformvm.ConvertSubnetToL1Tx"@.len());
    reveal_strlit("stakeable.LockOut");
    assert("stakeable.LockOut"@.len() != "platformvm.ConvertSubnetToL1Tx"@.len());
    reveal_strlit("platformvm.RemoveSubnetValidatorTx");
    assert("platformvm.RemoveSubnetValidatorTx"@.len() != "platformvm.ConvertSubnetToL1Tx"@.len());
    reveal_strlit("platformvm.TransformSubnetTx");
    assert("platformvm.TransformSubnetTx"@.len() != "platformvm.ConvertSubnetToL1Tx"@.len());
    reveal_strlit("platformvm.AddPermissionlessValidatorTx");
    assert("platformvm.AddPermissionlessValidatorTx"@.len() != "platformvm.ConvertSubnetToL1Tx"@.len());
    reveal_strlit("platformvm.AddPermissionlessDelegatorTx");
    assert("platformvm.AddPermissionlessDelegatorTx"@.len() != "platformvm.ConvertSubnetToL1Tx"@.len());
    reveal_strlit("signer.Empty");
    assert("signer.Empty"@.len() != "platformvm.ConvertSubnetToL1Tx"@.len());
    reveal_strlit("signer.ProofOfPossession");
    assert("signer.ProofOfPossession"@.len() != "platformvm.ConvertSubnetToL1Tx"@.len());
    reveal_strlit("platformvm.TransferSubnetOwnershipTx");
    assert("platformvm.TransferSubnetOwnershipTx"@.len() != "platformvm.ConvertSubnetToL1Tx"@.len());
    reveal_strlit("platformvm.BaseTx");
    assert("platformvm.BaseTx"@.len() != "platformvm.ConvertSubnetToL1Tx"@.len());
}

/// `platformvm.RegisterL1ValidatorTx` is registered as 32.
pub proof fn lemma_register_l1_validator_tx_registered()
    ensures
        p_type_id_of("platformvm.RegisterL1ValidatorTx"@) == Some(32u32),
{
    reveal_strlit("platformvm.RegisterL1ValidatorTx");
    reveal_strlit("platformvm.ProposalBlock");
    assert("platformvm.ProposalBlock"@.len() != "platformvm.RegisterL1ValidatorTx"@.len());
    reveal_strlit("platformvm.AbortBlock");
    assert("platformvm.AbortBlock"@.len() != "platformvm.RegisterL1ValidatorTx"@.len());
    reveal_strlit("platformvm.CommitBlock");
    assert("platformvm.CommitBlock"@.len() != "platformvm.RegisterL1ValidatorTx"@.len());
    reveal_strlit("platformvm.StandardBlock");
    assert("platformvm.StandardBlock"@.len() != "platformvm.RegisterL1ValidatorTx"@.len());
    reveal_strlit("platformvm.AtomicBlock");
    assert("platformvm.AtomicBlock"@.len() != "platformvm.RegisterL1ValidatorTx"@.len());
    reveal_strlit("secp256k1fx.TransferInput");
    assert("secp256k1fx.TransferInput"@.len() != "platformvm.RegisterL1ValidatorTx"@.len());
    reveal_strlit("secp256k1fx.MintOutput");
    assert("secp256k1fx.MintOutput"@.len() != "platformvm.RegisterL1ValidatorTx"@.len());
    reveal_strlit("secp256k1fx.TransferOutput");
    assert("secp256k1fx.TransferOutput"@.len() != "platformvm.RegisterL1ValidatorTx"@.len());
    reveal_strlit("secp256k1fx.MintOperation");
    assert("secp256k1fx.MintOperation"@.len() != "platformvm.RegisterL1ValidatorTx"@.len());
    reveal_strlit("secp256k1fx.Credential");
    assert("secp256k1fx.Credential"@.len() != "platformvm.RegisterL1ValidatorTx"@.len());
    reveal_strlit("secp256k1fx.Input");
    assert("secp256k1fx.Input"@.len() != "platformvm.RegisterL1ValidatorTx"@.len());
    reveal_strlit("secp256k1fx.OutputOwners");
    assert("secp256k1fx.OutputOwners"@.len() != "platformvm.RegisterL1ValidatorTx"@.len());
    reveal_strlit("platformvm.AddValidatorTx");
    assert("platformvm.AddValidatorTx"@.len() != "platformvm.RegisterL1ValidatorTx"@.len());
    reveal_strlit("platformvm.AddSubnetValidatorTx");
    assert("platformvm.AddSubnetValidatorTx"@.len() != "platformvm.RegisterL1ValidatorTx"@.len());
    reveal_strlit("platformvm.AddDelegatorTx");
    assert("platformvm.AddDelegatorTx"@.len() != "platformvm.RegisterL1ValidatorTx"@.len());
    reveal_strlit("platformvm.CreateChainTx");
    assert("platformvm.CreateChainTx"@.len() != "platformvm.RegisterL1ValidatorTx"@.len());
    reveal_strlit("platformvm.CreateSubnetTx");
    assert("platformvm.CreateSubnetTx"@.len() != "platformvm.RegisterL1ValidatorTx"@.len());
    reveal_strlit("platformvm.ImportTx");
    assert("platformvm.ImportTx"@.len() != "platformvm.RegisterL1ValidatorTx"@.len());
    reveal_strlit("platformvm.ExportTx");
    assert("platformvm.ExportTx"@.len() != "platformvm.RegisterL1ValidatorTx"@.len());
    reveal_strlit("platformvm.AdvanceTimeTx");
    assert("platformvm.AdvanceTimeTx"@.len() != "platformvm.RegisterL1ValidatorTx"@.len());
    reveal_strlit("platformvm.RewardValidatorTx");
    assert("platformvm.RewardValidatorTx"@.len() != "platformvm.RegisterL1ValidatorTx"@.len());
    reveal_strlit("stakeable.LockIn");
    assert("stakeable.LockIn"@.len() != "platformvm.RegisterL1ValidatorTx"@.len());
    reveal_strlit("stakeable.LockOut");
    assert("stakeable.LockOut"@.len() != "platformvm.RegisterL1ValidatorTx"@.len());
    reveal_strlit("platformvm.RemoveSubnetValidatorTx");
    assert("platformvm.RemoveSubnetValidatorTx"@.len() != "platformvm.RegisterL1ValidatorTx"@.len());
    reveal_strlit("platformvm.TransformSubnetTx");
    assert("platformvm.TransformSubnetTx"@.len() != "platformvm.RegisterL1ValidatorTx"@.len());
    reveal_strlit("platformvm.AddPermissionlessValidatorTx");
    assert("platformvm.AddPermissionlessValidatorTx"@.len() != "platformvm.RegisterL1ValidatorTx"@.len());
    reveal_strlit("platformvm.AddPermissionlessDelegatorTx");
    assert("platformvm.AddPermissionlessDelegatorTx"@.len() != "platformvm.RegisterL1ValidatorTx"@.len());
    reveal_strlit("signer.Empty");
    assert("signer.Empty"@.len() != "platformvm.RegisterL1ValidatorTx"@.len());
    reveal_strlit("signer.ProofOfPossession");
    assert("signer.ProofOfPossession"@.len() != "platformvm.RegisterL1ValidatorTx"@.len());
    reveal_strlit("platformvm.TransferSubnetOwnershipTx");
    assert("platformvm.TransferSubnetOwnershipTx"@.len() != "platformvm.RegisterL1ValidatorTx"@.len());
    reveal_strlit("platformvm.BaseTx");
    assert("platformvm.BaseTx"@.len() != "platformvm.RegisterL1ValidatorTx"@.len());
    reveal_strlit("platformvm.ConvertSubnetToL1Tx");
    assert("platformvm.ConvertSubnetToL1Tx"@.len() != "platformvm.RegisterL1ValidatorTx"@.len());
}

/// `platformvm.SetL1ValidatorWeightTx` is registered as 33.
pub proof fn lemma_set_l1_validator_weight_tx_registered()
    ensures
        p_type_id_of("platformvm.SetL1ValidatorWeightTx"@) == Some(33u32),
{
    reveal_strlit("platformvm.SetL1ValidatorWeightTx");
    reveal_strlit("platformvm.ProposalBlock");
    assert("platformvm.ProposalBlock"@.len() != "platformvm.SetL1ValidatorWeightTx"@.len());
    reveal_strlit("platformvm.AbortBlock");
    assert("platformvm.AbortBlock"@.len() != "platformvm.SetL1ValidatorWeightTx"@.len());
    reveal_strlit("platformvm.CommitBlock");
    assert("platformvm.CommitBlock"@.len() != "platformvm.SetL1ValidatorWeightTx"@.len());
    reveal_strlit("platformvm.StandardBlock");
    assert("platformvm.StandardBlock"@.len() != "platformvm.SetL1ValidatorWeightTx"@.len());
    reveal_strlit("platformvm.AtomicBlock");
    assert("platformvm.AtomicBlock"@.len() != "platformvm.SetL1ValidatorWeightTx"@.len());
    reveal_strlit("secp256k1fx.TransferInput");
    assert("secp256k1fx.TransferInput"@.len() != "platformvm.SetL1ValidatorWeightTx"@.len());
    reveal_strlit("secp256k1fx.MintOutput");
    assert("secp256k1fx.MintOutput"@.len() != "platformvm.SetL1ValidatorWeightTx"@.len());
    reveal_strlit("secp256k1fx.TransferOutput");
    assert("secp256k1fx.TransferOutput"@.len() != "platformvm.SetL1ValidatorWeightTx"@.len());
    reveal_strlit("secp256k1fx.MintOperation");
    assert("secp256k1fx.MintOperation"@.len() != "platformvm.SetL1ValidatorWeightTx"@.len());
    reveal_strlit("secp256k1fx.Credential");
    assert("secp256k1fx.Credential"@.len() != "platformvm.SetL1ValidatorWeightTx"@.len());
    reveal_strlit("secp256k1fx.Input");
    assert("secp256k1fx.Input"@.len() != "platformvm.SetL1ValidatorWeightTx"@.len());
    reveal_strlit("secp256k1fx.OutputOwners");
    assert("secp256k1fx.OutputOwners"@.len() != "platformvm.SetL1ValidatorWeightTx"@.len());
    reveal_strlit("platformvm.AddValidatorTx");
    assert("platformvm.AddValidatorTx"@.len() != "platformvm.SetL1ValidatorWeightTx"@.len());
    reveal_strlit("platformvm.AddSubnetValidatorTx");
    assert("platformvm.AddSubnetValidatorTx"@.len() != "platformvm.SetL1ValidatorWeightTx"@.len());
    reveal_strlit("platformvm.AddDelegatorTx");
    assert("platformvm.AddDelegatorTx"@.len() != "platformvm.SetL1ValidatorWeightTx"@.len());
    reveal_strlit("platformvm.CreateChainTx");
    assert("platformvm.CreateChainTx"@.len() != "platformvm.SetL1ValidatorWeightTx"@.len());
    reveal_strlit("platformvm.CreateSubnetTx");
    assert("platformvm.CreateSubnetTx"@.len() != "platformvm.SetL1ValidatorWeightTx"@.len());
    reveal_strlit("platformvm.ImportTx");
    assert("platformvm.ImportTx"@.len() != "platformvm.SetL1ValidatorWeightTx"@.len());
    reveal_strlit("platformvm.ExportTx");
    assert("platformvm.ExportTx"@.len() != "platformvm.SetL1ValidatorWeightTx"@.len());
    reveal_strlit("platformvm.AdvanceTimeTx");
    assert("platformvm.AdvanceTimeTx"@.len() != "platformvm.SetL1ValidatorWeightTx"@.len());
    reveal_strlit("platformvm.RewardValidatorTx");
    assert("platformvm.RewardValidatorTx"@.len() != "platformvm.SetL1ValidatorWeightTx"@.len());
    reveal_strlit("stakeable.LockIn");
    assert("stakeable.LockIn"@.len() != "platformvm.SetL1ValidatorWeightTx"@.len());
    reveal_strlit("stakeable.LockOut");
    assert("stakeable.LockOut"@.len() != "platformvm.SetL1ValidatorWeightTx"@.len());
    reveal_strlit("platformvm.RemoveSubnetValidatorTx");
    assert("platformvm.RemoveSubnetValidatorTx"@.len() != "platformvm.SetL1ValidatorWeightTx"@.len());
    reveal_strlit("platformvm.TransformSubnetTx");
    assert("platformvm.TransformSubnetTx"@.len() != "platformvm.SetL1ValidatorWeightTx"@.len());
    reveal_strlit("platformvm.AddPermissionlessValidatorTx");
    assert("platformvm.AddPermissionlessValidatorTx"@.len() != "platformvm.SetL1ValidatorWeightTx"@.len());
    reveal_strlit("platformvm.AddPermissionlessDelegatorTx");
    assert("platformvm.AddPermissionlessDelegatorTx"@.len() != "platformvm.SetL1ValidatorWeightTx"@.len());
    reveal_strlit("signer.Empty");
    assert("signer.Empty"@.len() != "platformvm.SetL1ValidatorWeightTx"@.len());
    reveal_strlit("signer.ProofOfPossession");
    assert("signer.ProofOfPossession"@.len() != "platformvm.SetL1ValidatorWeightTx"@.len());
    reveal_strlit("platformvm.TransferSubnetOwnershipTx");
    assert("platformvm.TransferSubnetOwnershipTx"@.len() != "platformvm.SetL1ValidatorWeightTx"@.len());
    reveal_strlit("platformvm.BaseTx");
    assert("platformvm.BaseTx"@.len() != "platformvm.SetL1ValidatorWeightTx"@.len());
    reveal_strlit("platformvm.ConvertSubnetToL1Tx");
    assert("platformvm.ConvertSubnetToL1Tx"@.len() != "platformvm.SetL1ValidatorWeightTx"@.len());
    reveal_strlit("platformvm.RegisterL1ValidatorTx");
    assert("platformvm.RegisterL1ValidatorTx"@.len() != "platformvm.SetL1ValidatorWeightTx"@.len());
}

/// `platformvm.IncreaseL1ValidatorBalanceTx` is registered as 34.
pub proof fn lemma_increase_l1_validator_balance_tx_registered()
    ensures
        p_type_id_of("platformvm.IncreaseL1ValidatorBalanceTx"@) == Some(34u32),
{
    reveal_strlit("platformvm.IncreaseL1ValidatorBalanceTx");
    reveal_strlit("platformvm.ProposalBlock");
    assert("platformvm.ProposalBlock"@.len() != "platformvm.IncreaseL1ValidatorBalanceTx"@.len());
    reveal_strlit("platformvm.AbortBlock");
    assert("platformvm.AbortBlock"@.len() != "platformvm.IncreaseL1ValidatorBalanceTx"@.len());
    reveal_strlit("platformvm.CommitBlock");
    assert("platformvm.CommitBlock"@.len() != "platformvm.IncreaseL1ValidatorBalanceTx"@.len());
    reveal_strlit("platformvm.StandardBlock");
    assert("platformvm.StandardBlock"@.len() != "platformvm.IncreaseL1ValidatorBalanceTx"@.len());
    reveal_strlit("platformvm.AtomicBlock");
    assert("platformvm.AtomicBlock"@.len() != "platformvm.IncreaseL1ValidatorBalanceTx"@.len());
    reveal_strlit("secp256k1fx.TransferInput");
    assert("secp256k1fx.TransferInput"@.len() != "platformvm.IncreaseL1ValidatorBalanceTx"@.len());
    reveal_strlit("secp256k1fx.MintOutput");
    assert("secp256k1fx.MintOutput"@.len() != "platformvm.IncreaseL1ValidatorBalanceTx"@.len());
    reveal_strlit("secp256k1fx.TransferOutput");
    assert("secp256k1fx.TransferOutput"@.len() != "platformvm.IncreaseL1ValidatorBalanceTx"@.len());
    reveal_strlit("secp256k1fx.MintOperation");
    assert("secp256k1fx.MintOperation"@.len() != "platformvm.IncreaseL1ValidatorBalanceTx"@.len());
    reveal_strlit("secp256k1fx.Credential");
    assert("secp256k1fx.Credential"@.len() != "platformvm.IncreaseL1ValidatorBalanceTx"@.len());
    reveal_strlit("secp256k1fx.Input");
    assert("secp256k1fx.Input"@.len() != "platformvm.IncreaseL1ValidatorBalanceTx"@.len());
    reveal_strlit("secp256k1fx.OutputOwners");
    assert("secp256k1fx.OutputOwners"@.len() != "platformvm.IncreaseL1ValidatorBalanceTx"@.len());
    reveal_strlit("platformvm.AddValidatorTx");
    assert("platformvm.AddValidatorTx"@.len() != "platformvm.IncreaseL1ValidatorBalanceTx"@.len());
    reveal_strlit("platformvm.AddSubnetValidatorTx");
    assert("platformvm.AddSubnetValidatorTx"@.len() != "platformvm.IncreaseL1ValidatorBalanceTx"@.len());
    reveal_strlit("platformvm.AddDelegatorTx");
    assert("platformvm.AddDelegatorTx"@.len() != "platformvm.IncreaseL1ValidatorBalanceTx"@.len());
    reveal_strlit("platformvm.CreateChainTx");
    assert("platformvm.CreateChainTx"@.len() != "platformvm.IncreaseL1ValidatorBalanceTx"@.len());
    reveal_strlit("platformvm.CreateSubnetTx");
    assert("platformvm.CreateSubnetTx"@.len() != "platformvm.IncreaseL1ValidatorBalanceTx"@.len());
    reveal_strlit("platformvm.ImportTx");
    assert("platformvm.ImportTx"@.len() != "platformvm.IncreaseL1ValidatorBalanceTx"@.len());
    reveal_strlit("platformvm.ExportTx");
    assert("platformvm.ExportTx"@.len() != "platformvm.IncreaseL1ValidatorBalanceTx"@.len());
    reveal_strlit("platformvm.AdvanceTimeTx");
    assert("platformvm.AdvanceTimeTx"@.len() != "platformvm.IncreaseL1ValidatorBalanceTx"@.len());
    reveal_strlit("platformvm.RewardValidatorTx");
    assert("platformvm.RewardValidatorTx"@.len() != "platformvm.IncreaseL1ValidatorBalanceTx"@.len());
    reveal_strlit("stakeable.LockIn");
    assert("stakeable.LockIn"@.len() != "platformvm.IncreaseL1ValidatorBalanceTx"@.len());
    reveal_strlit("stakeable.LockOut");
    assert("stakeable.LockOut"@.len() != "platformvm.IncreaseL1ValidatorBalanceTx"@.len());
    reveal_strlit("platformvm.RemoveSubnetValidatorTx");
    assert("platformvm.RemoveSubnetValidatorTx"@.len() != "platformvm.IncreaseL1ValidatorBalanceTx"@.len());
    reveal_strlit("platformvm.TransformSubnetTx");
    assert("platformvm.TransformSubnetTx"@.len() != "platformvm.IncreaseL1ValidatorBalanceTx"@.len());
    reveal_strlit("platformvm.AddPermissionlessValidatorTx");
    assert("platformvm.AddPermissionlessValidatorTx"@[11] != "platformvm.IncreaseL1ValidatorBalanceTx"@[11]);
    reveal_strlit("platformvm.AddPermissionlessDelegatorTx");
    assert("platformvm.AddPermissionlessDelegatorTx"@[11] != "platformvm.IncreaseL1ValidatorBalanceTx"@[11]);
    reveal_strlit("signer.Empty");
    assert("signer.Empty"@.len() != "platformvm.IncreaseL1ValidatorBalanceTx"@.len());
    reveal_strlit("signer.ProofOfPossession");
    assert("signer.ProofOfPossession"@.len() != "platformvm.IncreaseL1ValidatorBalanceTx"@.len());
    reveal_strlit("platformvm.TransferSubnetOwnershipTx");
    assert("platformvm.TransferSubnetOwnershipTx"@.len() != "platformvm.IncreaseL1ValidatorBalanceTx"@.len());
    reveal_strlit("platformvm.BaseTx");
    assert("platformvm.BaseTx"@.len() != "platformvm.IncreaseL1ValidatorBalanceTx"@.len());
    reveal_strlit("platformvm.ConvertSubnetToL1Tx");
    assert("platformvm.ConvertSubnetToL1Tx"@.len() != "platformvm.IncreaseL1ValidatorBalanceTx"@.len());
    reveal_strlit("platformvm.RegisterL1ValidatorTx");
    assert("platformvm.RegisterL1ValidatorTx"@.len() != "platformvm.IncreaseL1ValidatorBalanceTx"@.len());
    reveal_strlit("platformvm.SetL1ValidatorWeightTx");
    assert("platformvm.SetL1ValidatorWeightTx"@.len() != "platformvm.IncreaseL1ValidatorBalanceTx"@.len());
}

/// `platformvm.DisableL1ValidatorTx` is registered as 35.
pub proof fn lemma_disable_l1_validator_tx_registered()
    ensures
        p_type_id_of("platformvm.DisableL1ValidatorTx"@) == Some(35u32),
{
    reveal_strlit("platformvm.DisableL1ValidatorTx");
    reveal_strlit("platformvm.ProposalBlock");
    assert("platformvm.ProposalBlock"@.len() != "platformvm.DisableL1ValidatorTx"@.len());
    reveal_strlit("platformvm.AbortBlock");
    assert("platformvm.AbortBlock"@.len() != "platformvm.DisableL1ValidatorTx"@.len());
    reveal_strlit("platformvm.CommitBlock");
    assert("platformvm.CommitBlock"@.len() != "platformvm.DisableL1ValidatorTx"@.len());
    reveal_strlit("platformvm.StandardBlock");
    assert("platformvm.StandardBlock"@.len() != "platformvm.DisableL1ValidatorTx"@.len());
    reveal_strlit("platformvm.AtomicBlock");
    assert("platformvm.AtomicBlock"@.len() != "platformvm.DisableL1ValidatorTx"@.len());
    reveal_strlit("secp256k1fx.TransferInput");
    assert("secp256k1fx.TransferInput"@.len() != "platformvm.DisableL1ValidatorTx"@.len());
    reveal_strlit("secp256k1fx.MintOutput");
    assert("secp256k1fx.MintOutput"@.len() != "platformvm.DisableL1ValidatorTx"@.len());
    reveal_strlit("secp256k1fx.TransferOutput");
    assert("secp256k1fx.TransferOutput"@.len() != "platformvm.DisableL1ValidatorTx"@.len());
    reveal_strlit("secp256k1fx.MintOperation");
    assert("secp256k1fx.MintOperation"@.len() != "platformvm.DisableL1ValidatorTx"@.len());
    reveal_strlit("secp256k1fx.Credential");
    assert("secp256k1fx.Credential"@.len() != "platformvm.DisableL1ValidatorTx"@.len());
    reveal_strlit("secp256k1fx.Input");
    assert("secp256k1fx.Input"@.len() != "platformvm.DisableL1ValidatorTx"@.len());
    reveal_strlit("secp256k1fx.OutputOwners");
    assert("secp256k1fx.OutputOwners"@.len() != "platformvm.DisableL1ValidatorTx"@.len());
    reveal_strlit("platformvm.AddValidatorTx");
    assert("platformvm.AddValidatorTx"@.len() != "platformvm.DisableL1ValidatorTx"@.len());
    reveal_strlit("platformvm.AddSubnetValidatorTx");
    assert("platformvm.AddSubnetValidatorTx"@[11] != "platformvm.DisableL1ValidatorTx"@[11]);
    reveal_strlit("platformvm.AddDelegatorTx");
    assert("platformvm.AddDelegatorTx"@.len() != "platformvm.DisableL1ValidatorTx"@.len());
    reveal_strlit("platformvm.CreateChainTx");
    assert("platformvm.CreateChainTx"@.len() != "platformvm.DisableL1ValidatorTx"@.len());
    reveal_strlit("platformvm.CreateSubnetTx");
    assert("platformvm.CreateSubnetTx"@.len() != "platformvm.DisableL1ValidatorTx"@.len());
    reveal_strlit("platformvm.ImportTx");
    assert("platformvm.ImportTx"@.len() != "platformvm.DisableL1ValidatorTx"@.len());
    reveal_strlit("platformvm.ExportTx");
    assert("platformvm.ExportTx"@.len() != "platformvm.DisableL1ValidatorTx"@.len());
    reveal_strlit("platformvm.AdvanceTimeTx");
    assert("platformvm.AdvanceTimeTx"@.len() != "platformvm.DisableL1ValidatorTx"@.len());
    reveal_strlit("platformvm.RewardValidatorTx");
    assert("platformvm.RewardValidatorTx"@.len() != "platformvm.DisableL1ValidatorTx"@.len());
    reveal_strlit("stakeable.LockIn");
    assert("stakeable.LockIn"@.len() != "platformvm.DisableL1ValidatorTx"@.len());
    reveal_strlit("stakeable.LockOut");
    assert("stakeable.LockOut"@.len() != "platformvm.DisableL1ValidatorTx"@.len());
    reveal_strlit("platformvm.RemoveSubnetValidatorTx");
    assert("platformvm.RemoveSubnetValidatorTx"@.len() != "platformvm.DisableL1ValidatorTx"@.len());
    reveal_strlit("platformvm.TransformSubnetTx");
    assert("platformvm.TransformSubnetTx"@.len() != "platformvm.DisableL1ValidatorTx"@.len());
    reveal_strlit("platformvm.AddPermissionlessValidatorTx");
    assert("platformvm.AddPermissionlessValidatorTx"@.len() != "platformvm.DisableL1ValidatorTx"@.len());
    reveal_strlit("platformvm.AddPermissionlessDelegatorTx");
    assert("platformvm.AddPermissionlessDelegatorTx"@.len() != "platformvm.DisableL1ValidatorTx"@.len());
    reveal_strlit("signer.Empty");
    assert("signer.Empty"@.len() != "platformvm.DisableL1ValidatorTx"@.len());
    reveal_strlit("signer.ProofOfPossession");
    assert("signer.ProofOfPossession"@.len() != "platformvm.DisableL1ValidatorTx"@.len());
    reveal_strlit("platformvm.TransferSubnetOwnershipTx");
    assert("platformvm.TransferSubnetOwnershipTx"@.len() != "platformvm.DisableL1ValidatorTx"@.len());
    reveal_strlit("platformvm.BaseTx");
    assert("platformvm.BaseTx"@.len() != "platformvm.DisableL1ValidatorTx"@.len());
    reveal_strlit("platformvm.ConvertSubnetToL1Tx");
    assert("platformvm.ConvertSubnetToL1Tx"@.len() != "platformvm.DisableL1ValidatorTx"@.len());
    reveal_strlit("platformvm.RegisterL1ValidatorTx");
    assert("platformvm.RegisterL1ValidatorTx"@.len() != "platformvm.DisableL1ValidatorTx"@.len());
    reveal_strlit("platformvm.SetL1ValidatorWeightTx");
    assert("platformvm.SetL1ValidatorWeightTx"@.len() != "platformvm.DisableL1ValidatorTx"@.len());
    reveal_strlit("platformvm.IncreaseL1ValidatorBalanceTx");
    assert("platformvm.IncreaseL1ValidatorBalanceTx"@.len() != "platformvm.DisableL1ValidatorTx"@.len());
}

/// The Warp payload registry gives each payload type the type ID that its
/// encoding carries.
pub proof fn lemma_warp_payload_types_registered()
    ensures
        warp_payload_type_id_of("warp.SubnetToL1ConversionMessage"@) == Some(crate::warp::payload::SUBNET_TO_L1_CONVERSION_TYPE_ID),
        warp_payload_type_id_of("warp.RegisterL1ValidatorMessage"@) == Some(crate::warp::payload::REGISTER_L1_VALIDATOR_TYPE_ID),
        warp_payload_type_id_of("warp.L1ValidatorRegistrationMessage"@) == Some(crate::warp::payload::L1_VALIDATOR_REGISTRATION_TYPE_ID),
        warp_payload_type_id_of("warp.L1ValidatorWeightMessage"@) == Some(crate::warp::payload::L1_VALIDATOR_WEIGHT_TYPE_ID),
{
    reveal_strlit("warp.SubnetToL1ConversionMessage");
    reveal_strlit("warp.RegisterL1ValidatorMessage");
    assert("warp.SubnetToL1ConversionMessage"@.len() != "warp.RegisterL1ValidatorMessage"@.len());
    reveal_strlit("warp.L1ValidatorRegistrationMessage");
    assert("warp.SubnetToL1ConversionMessage"@.len() != "warp.L1ValidatorRegistrationMessage"@.len());
    assert("warp.RegisterL1ValidatorMessage"@.len() != "warp.L1ValidatorRegistrationMessage"@.len());
    reveal_strlit("warp.L1ValidatorWeightMessage");
    assert("warp.SubnetToL1ConversionMessage"@.len() != "warp.L1ValidatorWeightMessage"@.len());
    assert("warp.RegisterL1ValidatorMessage"@.len() != "warp.L1ValidatorWeightMessage"@.len());
    assert("warp.L1ValidatorRegistrationMessage"@.len() != "warp.L1ValidatorWeightMessage"@.len());
}

} // verus!
