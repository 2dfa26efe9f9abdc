# web_service

A small ActivityPub-flavoured web service that stores posted notes in a
DynamoDB table. `src/` is the verified library: DynamoDB items and the read and
write requests built from them, random identifiers, the routing and the
request handler (a state machine that asks for outside work one action at a
time), and the decisions of the web-framework routes. `app/` is the program
around it: the Lambda entry point, the Rocket routes, the DynamoDB client, and
the JSON and DynamoDB (de)serialisation of posted objects.
