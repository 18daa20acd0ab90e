//! Helpers for bringing proofs to EVM contracts: contract sources, deployment
//! and test scaffolding produced from templates, proofs laid out for a
//! contract call, and an estimate of the gas that checking a proof costs.

use std::collections::HashMap;
use vstd::prelude::*;
use vstd::string::StringExecFns;

verus! {

/// A contract that the helper knows.
#[derive(Clone, Debug)]
pub struct EVMContract {
    pub name: String,
    pub address: Option<String>,
    pub abi: String,
    pub bytecode: String,
    pub constructor_args: Vec<String>,
}

/// What a contract needs to check one proof.
#[derive(Clone, Debug)]
pub struct ProofVerification {
    pub proof: String,
    pub public_inputs: Vec<String>,
    pub verification_key: String,
    pub contract_address: String,
    pub gas_estimate: u64,
}

/// Where and how a contract was deployed.
#[derive(Clone, Debug)]
pub struct EVMDeployment {
    pub contract_name: String,
    pub deployed_address: String,
    pub transaction_hash: String,
    pub gas_used: u64,
    pub block_number: u64,
}

/// The layouts in which a proof can be handed to a contract.
#[derive(Clone, Copy, Debug, PartialEq, Eq, Structural)]
pub enum ProofFormatType {
    Raw,
    Solidity,
    JSON,
    Calldata,
}

/// A proof laid out in one format.
#[derive(Clone, Debug)]
pub struct ProofFormat {
    pub format_type: ProofFormatType,
    pub proof_data: String,
    pub public_inputs: Vec<String>,
    pub metadata: HashMap<String, String>,
}

/// The contracts that were added and the deployments that are known.
pub struct EVMIntegrationHelper {
    contracts: Vec<EVMContract>,
    deployed_contracts: HashMap<String, EVMDeployment>,
}

/// What checking any proof costs in gas.
pub const BASE_GAS: u64 = 100_000;

/// What each byte of a proof adds to the cost in gas.
pub const GAS_PER_PROOF_BYTE: u64 = 10;

/// What each public input adds to the cost in gas.
pub const GAS_PER_PUBLIC_INPUT: u64 = 1_000;

/// The contract that checks proofs, up to its name.
pub const SOLIDITY_HEAD: &'static str = "// SPDX-License-Identifier: MIT
pragma solidity ^0.8.0;

contract ";

/// The contract that checks proofs, after its name.
pub const SOLIDITY_TAIL: &'static str = " {
    // Pico proof verifier
    address public constant PICOT_VERIFIER = 0x0000000000000000000000000000000000000000;
    
    mapping(bytes32 => bool) public verifiedProofs;
    
    event ProofVerified(bytes32 indexed proofHash, bytes32 publicInput);
    
    function verifyPicoProof(
        bytes calldata proof,
        bytes32 publicInput
    ) external returns (bool) {
        bytes32 proofHash = keccak256(proof);
        require(!verifiedProofs[proofHash], \"Proof already verified\");
        
        // Call Pico verifier contract
        (bool success,) = PICOT_VERIFIER.call(abi.encodeWithSignature(
            \"verifyProof(bytes,bytes32)\",
            proof,
            publicInput
        ));
        
        if (success) {
            verifiedProofs[proofHash] = true;
            emit ProofVerified(proofHash, publicInput);
        }
        
        return success;
    }
    
    function isProofVerified(bytes32 proofHash) external view returns (bool) {
        return verifiedProofs[proofHash];
    }
}";

/// The verifier contract, up to its verification key.
pub const VERIFIER_HEAD: &'static str = "// SPDX-License-Identifier: MIT
pragma solidity ^0.8.0;

contract PicoVerifier {
    // Verification key for Pico zkVM
    bytes32 public constant VERIFICATION_KEY = 0x";

/// The verifier contract, after its verification key.
pub const VERIFIER_TAIL: &'static str = ";
    
    function verifyProof(
        bytes calldata proof,
        bytes32 publicInput
    ) external pure returns (bool) {
        // Simplified verification logic
        // In a real implementation, this would contain the actual verification circuit
        
        require(proof.length > 0, \"Invalid proof\");
        require(publicInput != bytes32(0), \"Invalid public input\");
        
        // Placeholder verification - always returns true for demo
        // Real implementation would verify the zk-SNARK proof
        return true;
    }
    
    function batchVerifyProofs(
        bytes[] calldata proofs,
        bytes32[] calldata publicInputs
    ) external pure returns (bool[] memory) {
        require(proofs.length == publicInputs.length, \"Array length mismatch\");
        
        bool[] memory results = new bool[](proofs.length);
        for (uint i = 0; i < proofs.length; i++) {
            results[i] = this.verifyProof(proofs[i], publicInputs[i]);
        }
        
        return results;
    }
}";

/// Part 1 of the deployment script.
pub const SCRIPT_1: &'static str = "// Deployment script for ";

/// Part 2 of the deployment script.
pub const SCRIPT_2: &'static str = "
const { ethers } = require(\"hardhat\");

async function main() {
    const ";

/// Part 3 of the deployment script.
pub const SCRIPT_3: &'static str = " = await ethers.getContractFactory(\"";

/// Part 4 of the deployment script.
pub const SCRIPT_4: &'static str = "\");
    const contract = await ";

/// Part 5 of the deployment script.
pub const SCRIPT_5: &'static str = ".deploy";

/// Part 6 of the deployment script.
pub const SCRIPT_6: &'static str = ";
    
    await contract.deployed();
    
    console.log(\"";

/// Part 7 of the deployment script.
pub const SCRIPT_7: &'static str = " deployed to:\", contract.address);
    console.log(\"Transaction hash:\", contract.deployTransaction.hash);
}

main()
    .then(() => process.exit(0))
    .catch((error) => {
        console.error(error);
        process.exit(1);
    });
";

/// Part 1 of the test contract.
pub const TEST_1: &'static str = "// SPDX-License-Identifier: MIT
pragma solidity ^0.8.0;

import \"forge-std/Test.sol\";
import \"../src/";

/// Part 2 of the test contract.
pub const TEST_2: &'static str = ".sol\";

contract ";

/// Part 3 of the test contract.
pub const TEST_3: &'static str = "Test is Test {
    ";

/// Part 4 of the test contract.
pub const TEST_4: &'static str = " public contract;
    
    function setUp() public {
        contract = new ";

/// Part 5 of the test contract.
pub const TEST_5: &'static str = "();
    }
    
    function testVerifyProof() public {
        // Test proof verification
        bytes memory proof = hex\"1234567890abcdef\";
        bytes32 publicInput = keccak256(\"test input\");
        
        bool result = contract.verifyPicoProof(proof, publicInput);
        assertTrue(result, \"Proof verification should succeed\");
    }
    
    function testDuplicateProof() public {
        bytes memory proof = hex\"1234567890abcdef\";
        bytes32 publicInput = keccak256(\"test input\");
        
        // First verification should succeed
        bool result1 = contract.verifyPicoProof(proof, publicInput);
        assertTrue(result1, \"First verification should succeed\");
        
        // Second verification should fail
        vm.expectRevert(\"Proof already verified\");
        contract.verifyPicoProof(proof, publicInput);
    }
    
    function testInvalidProof() public {
        bytes memory proof = hex\"\";
        bytes32 publicInput = keccak256(\"test input\");
        
        bool result = contract.verifyPicoProof(proof, publicInput);
        assertFalse(result, \"Invalid proof should fail verification\");
    }
}";

/// The source of a contract named `contract_name` that checks proofs.
pub open spec fn solidity_contract(contract_name: Seq<char>) -> Seq<char> {
    SOLIDITY_HEAD@ + contract_name + SOLIDITY_TAIL@
}

/// The source of the verifier contract for `verification_key`.
pub open spec fn verification_contract(verification_key: Seq<char>) -> Seq<char> {
    VERIFIER_HEAD@ + verification_key + VERIFIER_TAIL@
}

/// The source of the test contract for the contract named `contract_name`.
pub open spec fn test_contract(contract_name: Seq<char>) -> Seq<char> {
    TEST_1@ + contract_name + TEST_2@ + contract_name + TEST_3@ + contract_name + TEST_4@
        + contract_name + TEST_5@
}

/// `parts` joined, with `", "` between one part and the next.
pub open spec fn joined(parts: Seq<Seq<char>>) -> Seq<char>
    decreases parts.len(),
{
    if parts.len() == 0 {
        Seq::empty()
    } else if parts.len() == 1 {
        parts[0]
    } else {
        joined(parts.drop_last()) + ", "@ + parts.last()
    }
}

/// The arguments of a constructor as they stand behind `deploy`: nothing where
/// there are none, and else the arguments in parentheses.
pub open spec fn constructor_call(constructor_args: Seq<Seq<char>>) -> Seq<char> {
    if constructor_args.len() == 0 {
        Seq::empty()
    } else {
        "("@ + joined(constructor_args) + ")"@
    }
}

/// The script that deploys the contract named `contract_name` with
/// `constructor_args`. The factory is held in a variable named by the
/// lower-case form of the contract's name.
pub open spec fn deployment_script(
    contract_name: Seq<char>,
    constructor_args: Seq<Seq<char>>,
) -> Seq<char> {
    SCRIPT_1@ + contract_name + SCRIPT_2@ + lowercase(contract_name) + SCRIPT_3@ + contract_name
        + SCRIPT_4@ + contract_name + SCRIPT_5@ + constructor_call(constructor_args) + SCRIPT_6@
        + contract_name + SCRIPT_7@
}

/// The proof `proof` laid out in the format `format_type`.
pub open spec fn proof_layout(proof: Seq<char>, format_type: ProofFormatType) -> Seq<char> {
    match format_type {
        ProofFormatType::Solidity => "0x"@ + proof,
        ProofFormatType::Calldata => "0x"@ + proof,
        ProofFormatType::JSON => "{\"proof\":"@ + json_string(proof)
            + ",\"publicInputs\":[],\"verificationKey\":\"default\"}"@,
        ProofFormatType::Raw => proof,
    }
}

/// The gas that checking a proof of `proof_size` bytes with
/// `public_inputs_count` public inputs costs.
pub open spec fn gas_cost(proof_size: nat, public_inputs_count: nat) -> nat {
    BASE_GAS as nat + proof_size * GAS_PER_PROOF_BYTE as nat + public_inputs_count
        * GAS_PER_PUBLIC_INPUT as nat
}

/// The lower-case form of `text`.
pub uninterp spec fn lowercase(text: Seq<char>) -> Seq<char>;

/// The JSON string that holds `text`: `text` between double quotes, with the
/// characters that JSON does not take as they are written as escapes.
pub uninterp spec fn json_string(text: Seq<char>) -> Seq<char>;

/// `str::to_lowercase` of the standard library: the result is the lower-case
/// form of `text` by the rules of Unicode, which depends on `text` alone.
#[verifier::external_body]
fn to_lowercase(text: &str) -> (lower: String)
    ensures
        lower@ == lowercase(text@),
{
    text.to_lowercase()
}

/// `serde_json`'s way of writing a string value (`Value::String`, shown through
/// its `Display`): the result is the compact JSON text of the string `text`,
/// which depends on `text` alone.
#[verifier::external_body]
fn to_json_string(text: &str) -> (json: String)
    ensures
        json@ == json_string(text@),
{
    serde_json::Value::String(text.to_owned()).to_string()
}

fn join_args(parts: &[String]) -> (text: String)
    ensures
        text@ == joined(parts.deep_view()),
{
    let mut out = String::new();
    let mut k: usize = 0;
    assert(parts.deep_view().take(0) =~= Seq::empty());
    while k < parts.len()
        invariant
            k <= parts@.len(),
            out@ == joined(parts.deep_view().take(k as int)),
        decreases parts@.len() - k,
    {
        proof {
            let next = parts.deep_view().take(k + 1);
            assert(next.drop_last() =~= parts.deep_view().take(k as int));
            assert(next.last() == parts@[k as int]@);
        }
        if k > 0 {
            out.append(", ");
        }
        out.append(parts[k].as_str());
        proof {
            assert(out@ =~= joined(parts.deep_view().take(k + 1)));
        }
        k += 1;
    }
    assert(parts.deep_view().take(parts@.len() as int) =~= parts.deep_view());
    out
}

impl EVMIntegrationHelper {
    /// The contracts that were added, in the order in which they were added.
    pub closed spec fn spec_contracts(&self) -> Seq<EVMContract> {
        self.contracts@
    }

    /// A helper that knows no contract and no deployment yet.
    pub fn new() -> (helper: Self)
        ensures
            helper.spec_contracts() == Seq::<EVMContract>::empty(),
            helper.spec_deployments() == Map::<String, EVMDeployment>::empty(),
    {
        Self { contracts: Vec::new(), deployed_contracts: HashMap::new() }
    }

    /// Adds `contract` behind the contracts that are known. The deployments stay
    /// as they are.
    pub fn add_contract(&mut self, contract: EVMContract)
        ensures
            final(self).spec_contracts() == old(self).spec_contracts().push(contract),
            final(self).spec_deployments() == old(self).spec_deployments(),
    {
        self.contracts.push(contract);
    }

    /// The contracts that were added, in the order in which they were added.
    pub fn contracts(&self) -> (all: &Vec<EVMContract>)
        ensures
            all@ == self.spec_contracts(),
    {
        &self.contracts
    }

    /// The deployments that are known, by the name of the contract.
    pub closed spec fn spec_deployments(&self) -> Map<String, EVMDeployment> {
        self.deployed_contracts@
    }

    /// The source of a contract named `contract_name` that checks proofs of a
    /// program. The program itself does not enter the source.
    pub fn generate_solidity_contract(&self, _pico_program: &str, contract_name: &str) -> (source:
        String)
        ensures
            source@ == solidity_contract(contract_name@),
    {
        let mut out = String::from_str(SOLIDITY_HEAD);
        out.append(contract_name);
        out.append(SOLIDITY_TAIL);
        out
    }

    /// The proof `proof` laid out in the format `format_type`: behind `0x` for
    /// Solidity and for calldata, as the `proof` member of a JSON object with no
    /// public inputs and the default verification key for JSON, and as it is
    /// for the raw format. The layout carries no public inputs and no metadata.
    pub fn format_proof_for_evm(&self, proof: &str, format_type: ProofFormatType) -> (format:
        ProofFormat)
        ensures
            format.format_type == format_type,
            format.proof_data@ == proof_layout(proof@, format_type),
            format.public_inputs@.len() == 0,
            format.metadata@ == Map::<String, String>::empty(),
    {
        let proof_data = match format_type {
            ProofFormatType::Solidity | ProofFormatType::Calldata => {
                let mut out = String::from_str("0x");
                out.append(proof);
                out
            },
            ProofFormatType::JSON => {
                let mut out = String::from_str("{\"proof\":");
                let quoted = to_json_string(proof);
                out.append(quoted.as_str());
                out.append(",\"publicInputs\":[],\"verificationKey\":\"default\"}");
                out
            },
            ProofFormatType::Raw => String::from_str(proof),
        };
        ProofFormat { format_type, proof_data, public_inputs: Vec::new(), metadata: HashMap::new() }
    }

    /// The gas that checking a proof of `proof_size` bytes with
    /// `public_inputs_count` public inputs costs: a base cost, a cost for each
    /// byte of the proof and a cost for each public input.
    pub fn estimate_gas_cost(&self, proof_size: usize, public_inputs_count: usize) -> (gas: u64)
        requires
            gas_cost(proof_size as nat, public_inputs_count as nat) <= u64::MAX,
        ensures
            gas == gas_cost(proof_size as nat, public_inputs_count as nat),
    {
        let proof_cost = proof_size as u64 * GAS_PER_PROOF_BYTE;
        let input_cost = public_inputs_count as u64 * GAS_PER_PUBLIC_INPUT;
        BASE_GAS + proof_cost + input_cost
    }

    /// The source of the verifier contract for `verification_key`.
    pub fn generate_verification_contract(&self, verification_key: &str) -> (source: String)
        ensures
            source@ == verification_contract(verification_key@),
    {
        let mut out = String::from_str(VERIFIER_HEAD);
        out.append(verification_key);
        out.append(VERIFIER_TAIL);
        out
    }

    /// The script that deploys the contract named `contract_name` with
    /// `constructor_args`.
    pub fn create_deployment_script(&self, contract_name: &str, constructor_args: &[String]) -> (script:
        String)
        ensures
            script@ == deployment_script(contract_name@, constructor_args.deep_view()),
    {
        let mut args = String::new();
        if constructor_args.len() > 0 {
            args.append("(");
            let inner = join_args(constructor_args);
            args.append(inner.as_str());
            args.append(")");
        }
        assert(args@ =~= constructor_call(constructor_args.deep_view()));
        let lower = to_lowercase(contract_name);
        let mut out = String::from_str(SCRIPT_1);
        out.append(contract_name);
        out.append(SCRIPT_2);
        out.append(lower.as_str());
        out.append(SCRIPT_3);
        out.append(contract_name);
        out.append(SCRIPT_4);
        out.append(contract_name);
        out.append(SCRIPT_5);
        out.append(args.as_str());
        out.append(SCRIPT_6);
        out.append(contract_name);
        out.append(SCRIPT_7);
        out
    }

    /// The source of the test contract for the contract named `contract_name`.
    pub fn generate_test_contract(&self, contract_name: &str) -> (source: String)
        ensures
            source@ == test_contract(contract_name@),
    {
        let mut out = String::from_str(TEST_1);
        out.append(contract_name);
        out.append(TEST_2);
        out.append(contract_name);
        out.append(TEST_3);
        out.append(contract_name);
        out.append(TEST_4);
        out.append(contract_name);
        out.append(TEST_5);
        out
    }
}

} // verus!
